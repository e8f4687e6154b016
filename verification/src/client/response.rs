use std::collections::HashMap;
use vstd::prelude::*;

verus! {

/// One page of a list, with what the service says of the whole list.
#[derive(Clone, Debug, PartialEq)]
pub struct Paginated<T> {
    pub data: Option<Vec<T>>,
    pub not_found: Option<bool>,
    pub total: usize,
    pub limit: usize,
    pub offset: usize,
}

/// An answer that holds what was asked for under a key.
pub type Wrapped<T> = HashMap<String, T>;

} // verus!
