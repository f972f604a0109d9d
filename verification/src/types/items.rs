//! The kinds of item that a list of a browse or search page can hold.
//!
//! An item keeps the subtree that describes it, its renderer; reading the
//! fields of a renderer is field extraction and happens elsewhere.

use crate::json::{tree_of, Tree};
use serde_json::Value;
use vstd::prelude::*;

verus! {

/// A video as a channel page lists it.
#[derive(Debug, PartialEq, Eq)]
pub struct ChannelVideo<'a> {
    pub renderer: &'a Value,
}

/// A channel as a result list shows it.
#[derive(Debug, PartialEq, Eq)]
pub struct SearchChannel<'a> {
    pub renderer: &'a Value,
}

/// A playlist as a result list shows it.
#[derive(Debug, PartialEq, Eq)]
pub struct SearchPlaylist<'a> {
    pub renderer: &'a Value,
}

impl<'a> View for ChannelVideo<'a> {
    type V = Tree;

    open spec fn view(&self) -> Tree {
        tree_of(*self.renderer)
    }
}

impl<'a> View for SearchChannel<'a> {
    type V = Tree;

    open spec fn view(&self) -> Tree {
        tree_of(*self.renderer)
    }
}

impl<'a> View for SearchPlaylist<'a> {
    type V = Tree;

    open spec fn view(&self) -> Tree {
        tree_of(*self.renderer)
    }
}

} // verus!
