//! OSX specific functionality for items.
use vstd::prelude::*;
use crate::os::macos::keychain::SecKeychain;

verus! {

/// The part of an item search that names the keychains to search.
#[derive(Debug)]
pub struct ItemSearchOptions {
    keychains: Option<Vec<SecKeychain>>,
}

impl ItemSearchOptions {
    /// Options that search the default keychain.
    pub fn new() -> (o: ItemSearchOptions)
        ensures
            o.spec_keychains() is None,
    {
        ItemSearchOptions { keychains: None }
    }

    /// The keychains to search, in order; `None` for the default keychain.
    pub closed spec fn spec_keychains(&self) -> Option<Seq<SecKeychain>> {
        match self.keychains {
            Some(v) => Some(v@),
            None => None,
        }
    }

    /// The keychains to search, in order; `None` for the default keychain.
    pub fn searched_keychains(&self) -> (k: Option<&[SecKeychain]>)
        ensures
            match k {
                Some(s) => self.spec_keychains() == Some(s@),
                None => self.spec_keychains() is None,
            },
    {
        match &self.keychains {
            Some(v) => Some(v.as_slice()),
            None => None,
        }
    }
}

/// An extension trait adding OSX specific functionality to
/// `ItemSearchOptions`.
pub trait ItemSearchOptionsExt: Sized {
    /// The keychains that a search covers; `None` for the default keychain.
    spec fn spec_searched(&self) -> Option<Seq<SecKeychain>>;

    /// Search within the specified keychains.
    ///
    /// If this is not called, the default keychain will be searched.
    fn keychains(&mut self, keychains: &[SecKeychain]) -> (r: &mut Self)
        ensures
            r.spec_searched() == Some(keychains@),
            *final(self) == *final(r),
    ;
}

impl ItemSearchOptionsExt for ItemSearchOptions {
    open spec fn spec_searched(&self) -> Option<Seq<SecKeychain>> {
        self.spec_keychains()
    }

    fn keychains(&mut self, keychains: &[SecKeychain]) -> (r: &mut Self) {
        let mut list: Vec<SecKeychain> = Vec::new();
        let mut i: usize = 0;
        while i < keychains.len()
            invariant
                i <= keychains.len(),
                list@ == keychains@.subrange(0, i as int),
            decreases keychains.len() - i,
        {
            list.push(keychains[i]);
            i = i + 1;
        }
        assert(keychains@.subrange(0, keychains.len() as int) =~= keychains@);
        self.keychains = Some(list);
        self
    }
}

} // verus!
