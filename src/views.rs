//! Views: a surface paired with metadata that travels with it.
use vstd::prelude::*;

use crate::surfaces::{HomeTab, Modal};

verus! {

/// The surfaces that a view can carry. Messages are not among them.
pub trait ViewType {}

impl ViewType for HomeTab {}

impl ViewType for Modal {}

/// A surface with optional metadata that the caller gets back untouched.
pub struct View<T: ViewType> {
    pub payload: T,
    pub private_metadata: Option<String>,
}

impl<T: ViewType> View<T> {
    pub fn new(payload: T) -> (r: View<T>)
        ensures
            r.payload == payload,
            r.private_metadata is None,
    {
        View { payload, private_metadata: None }
    }

    pub fn new_with_metadata(payload: T, private_metadata: String) -> (r: View<T>)
        ensures
            r.payload == payload,
            r.private_metadata == Some(private_metadata),
    {
        View { payload, private_metadata: Some(private_metadata) }
    }
}

} // verus!
