//! Items of configuration that must be set up before the service is usable.

use crate::error::{DenimError, DenimResult};
use vstd::prelude::*;

verus! {

/// Which item of configuration is meant.
#[derive(Clone, Copy, Debug, PartialEq, Eq, Structural)]
pub enum ImportantItemTy {
    Bucket,
    DateLocaleConfig,
    AuthConfig,
}

impl ImportantItemTy {
    /// The name of this item.
    pub open spec fn spec_name(self) -> Seq<char> {
        match self {
            ImportantItemTy::Bucket => "Bucket"@,
            ImportantItemTy::DateLocaleConfig => "DateLocaleConfig"@,
            ImportantItemTy::AuthConfig => "AuthConfig"@,
        }
    }

    /// The name of this item.
    pub fn name(self) -> (name: &'static str)
        ensures
            name@ == self.spec_name(),
    {
        match self {
            ImportantItemTy::Bucket => "Bucket",
            ImportantItemTy::DateLocaleConfig => "DateLocaleConfig",
            ImportantItemTy::AuthConfig => "AuthConfig",
        }
    }
}

/// The place of one item of configuration, which is empty until the item
/// is set, and keeps the item from then on.
#[derive(Debug)]
pub struct ImportantItemContainer<T> {
    pub ty: ImportantItemTy,
    pub item: Option<T>,
}

impl<T> ImportantItemContainer<T> {
    /// An empty place for the item `ty`.
    pub fn new(ty: ImportantItemTy) -> (place: Self)
        ensures
            place.ty == ty,
            place.item is None,
    {
        ImportantItemContainer { ty, item: None }
    }

    /// A place for the item `ty` that holds what the storage gave: the item,
    /// or nothing. A failure of the storage is handed on.
    pub fn try_new_from_bucket(ty: ImportantItemTy, fetched: DenimResult<Option<T>>) -> (place:
        DenimResult<Self>)
        ensures
            match fetched {
                Ok(found) => place == Ok::<Self, DenimError>(
                    ImportantItemContainer { ty, item: found },
                ),
                Err(e) => place == Err::<Self, DenimError>(e),
            },
    {
        match fetched {
            Ok(found) => Ok(ImportantItemContainer { ty, item: found }),
            Err(e) => Err(e),
        }
    }

    /// Whether the item is set.
    pub fn is_set(&self) -> (set: bool)
        ensures
            set == self.item is Some,
    {
        self.item.is_some()
    }

    /// The item, or the failure that names the item that is missing.
    pub fn get(&self) -> (item: DenimResult<&T>)
        ensures
            match self.item {
                Some(it) => item == Ok::<&T, DenimError>(&it),
                None => item == Err::<&T, DenimError>(
                    DenimError::MissingImportantItem { item: self.ty },
                ),
            },
    {
        match &self.item {
            Some(it) => Ok(it),
            None => Err(DenimError::MissingImportantItem { item: self.ty }),
        }
    }

    /// Sets the item, unless it is set already: then nothing changes and
    /// `item` comes back.
    pub fn set(&mut self, item: T) -> (refused: Result<(), T>)
        ensures
            final(self).ty == old(self).ty,
            match old(self).item {
                Some(kept) => refused == Err::<(), T>(item) && final(self).item == Some(kept),
                None => refused is Ok && final(self).item == Some(item),
            },
    {
        if self.item.is_some() {
            Err(item)
        } else {
            self.item = Some(item);
            Ok(())
        }
    }

    /// Sets the item from what the storage holds, unless it is set already,
    /// and says whether it is set now. `fetched` is what the storage gave:
    /// the item, nothing, or a failure, which is handed on.
    pub fn try_set_from_bucket(&mut self, fetched: DenimResult<Option<T>>) -> (set: DenimResult<bool>)
        ensures
            final(self).ty == old(self).ty,
            match old(self).item {
                Some(kept) => set == Ok::<bool, DenimError>(true) && final(self).item == Some(kept),
                None => match fetched {
                    Ok(Some(found)) => set == Ok::<bool, DenimError>(true) && final(self).item
                        == Some(found),
                    Ok(None) => set == Ok::<bool, DenimError>(false) && final(self).item is None,
                    Err(e) => set == Err::<bool, DenimError>(e) && final(self).item is None,
                },
            },
    {
        if self.item.is_some() {
            return Ok(true);
        }
        match fetched {
            Ok(Some(found)) => {
                self.item = Some(found);
                Ok(true)
            },
            Ok(None) => Ok(false),
            Err(e) => Err(e),
        }
    }
}

} // verus!
