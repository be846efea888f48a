use vstd::prelude::*;

use crate::node::Node;
use crate::page::{landing_page, App};

verus! {

/// Why a tree could not be attached.
#[derive(Clone, Copy, Debug, PartialEq, Eq, Structural)]
pub enum MountError {
    /// The host has no root rendering target to attach to.
    TargetUnavailable,
}

impl MountError {
    /// A short human-readable description of the error.
    pub fn message(&self) -> (r: &'static str)
        ensures
            r@ == "mount target unavailable"@,
    {
        match self {
            MountError::TargetUnavailable => "mount target unavailable",
        }
    }
}

/// The host document as far as mounting is concerned: its root rendering
/// target, when it has one, and the trees attached to that target.
pub struct Document {
    pub body: Option<Vec<Node>>,
}

/// Whether the document has a root rendering target.
pub open spec fn has_target(d: Document) -> bool {
    d.body is Some
}

/// The trees attached to the document's root rendering target.
pub open spec fn attached(d: Document) -> Seq<Node> {
    match d.body {
        Some(v) => v@,
        None => Seq::empty(),
    }
}

impl Document {
    /// A document with an empty root rendering target.
    pub fn with_body() -> (r: Document)
        ensures
            has_target(r),
            attached(r).len() == 0,
    {
        Document { body: Some(Vec::new()) }
    }

    /// A document without a root rendering target.
    pub fn without_body() -> (r: Document)
        ensures
            !has_target(r),
    {
        Document { body: None }
    }

    /// Whether the document has a root rendering target.
    pub fn has_target(&self) -> (r: bool)
        ensures
            r == has_target(*self),
    {
        self.body.is_some()
    }

    /// How many trees are attached to the root rendering target.
    pub fn attached_count(&self) -> (r: usize)
        ensures
            r == attached(*self).len(),
    {
        match &self.body {
            Some(v) => v.len(),
            None => 0,
        }
    }
}

/// Makes `tree` the sole child of the document's root rendering target.
/// Without a target, fails and leaves the document as it was.
pub fn mount_to_body(doc: &mut Document, tree: Node) -> (r: Result<(), MountError>)
    ensures
        r is Err <==> !has_target(*old(doc)),
        r is Err ==> r == Err::<(), MountError>(MountError::TargetUnavailable),
        r is Err ==> *final(doc) == *old(doc),
        r is Ok ==> has_target(*final(doc)) && attached(*final(doc)) == seq![tree],
{
    match &mut doc.body {
        Some(children) => {
            children.clear();
            children.push(tree);
            Ok(())
        },
        None => Err(MountError::TargetUnavailable),
    }
}

/// Builds the landing page and attaches it to the document, once.
pub fn mount_app(doc: &mut Document) -> (r: Result<(), MountError>)
    ensures
        r is Err <==> !has_target(*old(doc)),
        r is Err ==> r == Err::<(), MountError>(MountError::TargetUnavailable),
        r is Err ==> *final(doc) == *old(doc),
        r is Ok ==> {
            &&& has_target(*final(doc))
            &&& attached(*final(doc)).len() == 1
            &&& attached(*final(doc))[0].model() == landing_page()
        },
{
    let page = App();
    mount_to_body(doc, page)
}

} // verus!
