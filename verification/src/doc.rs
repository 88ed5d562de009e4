//! Output document model.
//!
//! The generated site reads a JSON document whose field names are part of the
//! library's external contract.  `Doc` is the in-memory form of that document;
//! `DocV` is its mathematical model, used by every contract that speaks about
//! document shapes.  The surrounding application serializes a `Doc` to text
//! one node at a time, without any decision logic.

use vstd::prelude::*;

verus! {

/// Mathematical model of a document node.
pub ghost enum DocV {
    Null,
    Bool(bool),
    UInt(u64),
    Str(Seq<char>),
    Arr(Seq<DocV>),
    Obj(Seq<(Seq<char>, DocV)>),
}

/// One node of an output document: a JSON value restricted to the shapes the
/// generator emits (no floating point, no negative numbers).
pub enum Doc {
    Null,
    Bool(bool),
    UInt(u64),
    Str(String),
    Arr(Vec<Doc>),
    Obj(Vec<(String, Doc)>),
}

/// The model of one document node.
pub open spec fn doc_model(d: Doc) -> DocV
    decreases d,
{
    match d {
        Doc::Null => DocV::Null,
        Doc::Bool(b) => DocV::Bool(b),
        Doc::UInt(n) => DocV::UInt(n),
        Doc::Str(s) => DocV::Str(s@),
        Doc::Arr(items) => DocV::Arr(doc_model_seq(items@)),
        Doc::Obj(fields) => DocV::Obj(doc_model_fields(fields@)),
    }
}

/// The models of an array's elements, in order.
pub open spec fn doc_model_seq(s: Seq<Doc>) -> Seq<DocV>
    decreases s,
{
    if s.len() == 0 {
        Seq::empty()
    } else {
        seq![doc_model(s[0])] + doc_model_seq(s.skip(1))
    }
}

/// The models of an object's fields, in order.
pub open spec fn doc_model_fields(s: Seq<(String, Doc)>) -> Seq<(Seq<char>, DocV)>
    decreases s,
{
    if s.len() == 0 {
        Seq::empty()
    } else {
        seq![(s[0].0@, doc_model(s[0].1))] + doc_model_fields(s.skip(1))
    }
}

/// An array's models line up with its elements, index by index.
pub proof fn lemma_doc_model_seq(s: Seq<Doc>)
    ensures
        doc_model_seq(s).len() == s.len(),
        forall|i: int| 0 <= i < s.len() ==> doc_model_seq(s)[i] == doc_model(#[trigger] s[i]),
    decreases s.len(),
{
    if s.len() > 0 {
        lemma_doc_model_seq(s.skip(1));
        assert forall|i: int| 0 <= i < s.len() implies doc_model_seq(s)[i] == doc_model(
            #[trigger] s[i],
        ) by {
            if i > 0 {
                assert(s.skip(1)[i - 1] == s[i]);
            }
        }
    }
}

/// An object's field models line up with its fields, index by index.
pub proof fn lemma_doc_model_fields(s: Seq<(String, Doc)>)
    ensures
        doc_model_fields(s).len() == s.len(),
        forall|i: int| 0 <= i < s.len() ==> doc_model_fields(s)[i] == ((#[trigger] s[i]).0@,
        doc_model(s[i].1)),
    decreases s.len(),
{
    if s.len() > 0 {
        lemma_doc_model_fields(s.skip(1));
        assert forall|i: int| 0 <= i < s.len() implies doc_model_fields(s)[i] == ((
        #[trigger] s[i]).0@, doc_model(s[i].1)) by {
            if i > 0 {
                assert(s.skip(1)[i - 1] == s[i]);
            }
        }
    }
}

impl DeepView for Doc {
    type V = DocV;

    open spec fn deep_view(&self) -> DocV {
        doc_model(*self)
    }
}

} // verus!
