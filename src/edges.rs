use vstd::prelude::*;

use crate::nodes::{Article, StaticEvent, StaticNode};

verus! {

/// An article mentioning an event. The record holds its own copies of the classes and
/// names of both ends, so it stays meaningful whatever later happens to the entities.
/// Relevance and sentiment are scores in millionths (`800_000` is 0.8).
#[derive(Clone, Debug)]
pub struct Mentioned {
    source: String,
    target: String,
    src_id: String,
    tgt_id: String,
    relevance: i64,
    sentiment: i64,
}

/// Structural containment between two entities; carries no attributes.
#[derive(Clone, Copy, Debug, PartialEq, Eq, Structural)]
pub struct Composed {}

impl Mentioned {
    /// Class of the mentioning entity.
    pub closed spec fn source_spec(&self) -> Seq<char> {
        self.source@
    }

    /// Class of the mentioned entity.
    pub closed spec fn target_spec(&self) -> Seq<char> {
        self.target@
    }

    /// Name of the mentioning entity.
    pub closed spec fn src_id_spec(&self) -> Seq<char> {
        self.src_id@
    }

    /// Name of the mentioned entity.
    pub closed spec fn tgt_id_spec(&self) -> Seq<char> {
        self.tgt_id@
    }

    pub closed spec fn relevance_spec(&self) -> i64 {
        self.relevance
    }

    pub closed spec fn sentiment_spec(&self) -> i64 {
        self.sentiment
    }

    pub fn new(source: &Article, target: &StaticEvent, relevance: i64, sentiment: i64) -> (r: Mentioned)
        ensures
            r.source_spec() == source.cls_spec(),
            r.target_spec() == target.cls_spec(),
            r.src_id_spec() == source.name_spec(),
            r.tgt_id_spec() == target.name_spec(),
            r.relevance_spec() == relevance,
            r.sentiment_spec() == sentiment,
    {
        Mentioned {
            source: source.cls().to_owned(),
            target: target.cls().to_owned(),
            src_id: source.name().to_owned(),
            tgt_id: target.name().to_owned(),
            relevance,
            sentiment,
        }
    }

    pub fn source(&self) -> (r: &str)
        ensures
            r@ == self.source_spec(),
    {
        self.source.as_str()
    }

    pub fn target(&self) -> (r: &str)
        ensures
            r@ == self.target_spec(),
    {
        self.target.as_str()
    }

    pub fn src_id(&self) -> (r: &str)
        ensures
            r@ == self.src_id_spec(),
    {
        self.src_id.as_str()
    }

    pub fn tgt_id(&self) -> (r: &str)
        ensures
            r@ == self.tgt_id_spec(),
    {
        self.tgt_id.as_str()
    }

    pub fn relevance(&self) -> (r: i64)
        ensures
            r == self.relevance_spec(),
    {
        self.relevance
    }

    pub fn sentiment(&self) -> (r: i64)
        ensures
            r == self.sentiment_spec(),
    {
        self.sentiment
    }
}

} // verus!
