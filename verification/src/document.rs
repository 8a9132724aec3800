//! Tree-shaped response documents: objects, arrays and scalars.
//!
//! A `Document` is the structured payload a remote operation returns and the
//! unit every later step copies and merges. Contracts speak about documents
//! through [`DocModel`], a mathematical view in which objects are maps from
//! field names to child models, so that two documents are interchangeable
//! exactly when they carry the same fields and elements. Integers outside
//! `i64` and other exotic scalars are carried as text by whoever constructs
//! the document.

use vstd::prelude::*;
use vstd::string::*;

verus! {

/// One named field of an object document.
#[derive(Debug, PartialEq)]
pub struct Field {
    pub name: String,
    pub value: Document,
}

/// A structured response payload: a tree of objects, arrays and scalars.
#[derive(Debug, PartialEq)]
pub enum Document {
    Null,
    Bool(bool),
    Int(i64),
    Text(String),
    Array(Vec<Document>),
    Object(Vec<Field>),
}

/// The mathematical shape of a document: object fields become a map keyed by
/// field name, so field order and duplicate entries (where the last write
/// wins) do not distinguish two documents.
#[verifier::ext_equal]
pub enum DocModel {
    Null,
    Bool(bool),
    Int(int),
    Text(Seq<char>),
    Array(Seq<DocModel>),
    Object(Map<Seq<char>, DocModel>),
}

impl Document {
    /// The mathematical view of this document.
    pub open spec fn model(self) -> DocModel
        decreases self,
    {
        match self {
            Document::Null => DocModel::Null,
            Document::Bool(b) => DocModel::Bool(b),
            Document::Int(i) => DocModel::Int(i as int),
            Document::Text(s) => DocModel::Text(s@),
            Document::Array(v) => DocModel::Array(seq_model(v@)),
            Document::Object(fields) => DocModel::Object(fields_model(fields@)),
        }
    }
}

/// The models of a sequence of documents, element by element.
pub open spec fn seq_model(s: Seq<Document>) -> Seq<DocModel>
    decreases s,
{
    if s.len() == 0 {
        Seq::empty()
    } else {
        seq_model(s.subrange(0, s.len() - 1)).push(s[s.len() - 1].model())
    }
}

/// The field map of an object's entries; a later entry with the same name
/// overrides an earlier one.
pub open spec fn fields_model(s: Seq<Field>) -> Map<Seq<char>, DocModel>
    decreases s,
{
    if s.len() == 0 {
        Map::empty()
    } else {
        fields_model(s.subrange(0, s.len() - 1)).insert(
            s[s.len() - 1].name@,
            s[s.len() - 1].value.model(),
        )
    }
}

/// Element count and per-element shape of `seq_model`.
pub proof fn lemma_seq_model(s: Seq<Document>)
    ensures
        seq_model(s).len() == s.len(),
        forall|i: int| 0 <= i < s.len() ==> seq_model(s)[i] == s[i].model(),
    decreases s,
{
    if s.len() > 0 {
        lemma_seq_model(s.subrange(0, s.len() - 1));
    }
}

/// When entry `i` is the last entry named `k`, the field map holds its value.
pub proof fn lemma_fields_model_found(s: Seq<Field>, k: Seq<char>, i: int)
    requires
        0 <= i < s.len(),
        s[i].name@ == k,
        forall|j: int| i < j < s.len() ==> s[j].name@ != k,
    ensures
        fields_model(s).contains_key(k),
        fields_model(s)[k] == s[i].value.model(),
    decreases s,
{
    if i < s.len() - 1 {
        lemma_fields_model_found(s.subrange(0, s.len() - 1), k, i);
    }
}

/// A name no entry carries is absent from the field map.
pub proof fn lemma_fields_model_absent(s: Seq<Field>, k: Seq<char>)
    requires
        forall|j: int| 0 <= j < s.len() ==> s[j].name@ != k,
    ensures
        !fields_model(s).contains_key(k),
    decreases s,
{
    if s.len() > 0 {
        lemma_fields_model_absent(s.subrange(0, s.len() - 1), k);
    }
}

/// Character-for-character equality of two string slices.
pub fn str_eq(a: &str, b: &str) -> (r: bool)
    ensures
        r == (a@ == b@),
{
    let alen = a.unicode_len();
    let blen = b.unicode_len();
    if alen != blen {
        return false;
    }
    let mut i: usize = 0;
    while i < alen
        invariant
            i <= alen,
            alen == a@.len(),
            blen == b@.len(),
            alen == blen,
            forall|j: int| 0 <= j < i ==> a@[j] == b@[j],
        decreases alen - i,
    {
        if a.get_char(i) != b.get_char(i) {
            return false;
        }
        i = i + 1;
    }
    proof {
        assert(a@ =~= b@);
    }
    true
}

impl Document {
    /// Whether this document is an object.
    pub open spec fn is_object(self) -> bool {
        self matches Document::Object(_)
    }

    /// The field map of this document, when it is an object.
    pub open spec fn obj(self) -> Map<Seq<char>, DocModel>
        recommends
            self.is_object(),
    {
        match self {
            Document::Object(fields) => fields_model(fields@),
            _ => Map::empty(),
        }
    }

    /// The model of the field named `k`, or `None` when this document is not
    /// an object or has no such field.
    pub open spec fn field(self, k: Seq<char>) -> Option<DocModel> {
        if self.is_object() && self.obj().contains_key(k) {
            Some(self.obj()[k])
        } else {
            None
        }
    }

    /// Look up a field by name; the last entry with that name wins.
    pub fn get<'a>(&'a self, key: &str) -> (r: Option<&'a Document>)
        ensures
            match r {
                Some(d) => self.field(key@) == Some(d.model()),
                None => self.field(key@) is None,
            },
    {
        match self {
            Document::Object(fields) => {
                let n = fields.len();
                let mut i = n;
                while i > 0
                    invariant
                        i <= n,
                        n == fields.len(),
                        *self == Document::Object(*fields),
                        forall|j: int| i <= j < n ==> fields@[j].name@ != key@,
                    decreases i,
                {
                    i = i - 1;
                    if str_eq(fields[i].name.as_str(), key) {
                        proof {
                            lemma_fields_model_found(fields@, key@, i as int);
                        }
                        return Some(&fields[i].value);
                    }
                }
                proof {
                    lemma_fields_model_absent(fields@, key@);
                }
                None
            },
            _ => None,
        }
    }
}

impl Document {
    /// A structurally fresh copy with the same model.
    pub fn deep_copy(&self) -> (r: Document)
        ensures
            r.model() == self.model(),
        decreases self,
    {
        match self {
            Document::Null => Document::Null,
            Document::Bool(b) => Document::Bool(*b),
            Document::Int(i) => Document::Int(*i),
            Document::Text(s) => Document::Text(s.clone()),
            Document::Array(v) => {
                let mut out: Vec<Document> = Vec::new();
                let mut i: usize = 0;
                while i < v.len()
                    invariant
                        i <= v.len(),
                        out@.len() == i,
                        *self == Document::Array(*v),
                        forall|j: int| 0 <= j < i ==> out@[j].model() == v@[j].model(),
                    decreases v.len() - i,
                {
                    proof {
                        assert(decreases_to!(*self => (*self)->Array_0));
                        assert((*self)->Array_0 == *v);
                        assert(decreases_to!(*v => v@));
                        assert(decreases_to!(v@ => v@[i as int]));
                        assert(decreases_to!(self => v@[i as int]));
                    }
                    out.push(v[i].deep_copy());
                    i = i + 1;
                }
                proof {
                    lemma_seq_model(out@);
                    lemma_seq_model(v@);
                    assert(seq_model(out@) =~= seq_model(v@));
                }
                Document::Array(out)
            },
            Document::Object(fields) => {
                let mut out: Vec<Field> = Vec::new();
                let mut i: usize = 0;
                while i < fields.len()
                    invariant
                        i <= fields.len(),
                        out@.len() == i,
                        *self == Document::Object(*fields),
                        forall|j: int| #![trigger out@[j]] 0 <= j < i ==> out@[j].name@
                            == fields@[j].name@ && out@[j].value.model()
                            == fields@[j].value.model(),
                    decreases fields.len() - i,
                {
                    proof {
                        assert(decreases_to!(*self => (*self)->Object_0));
                        assert((*self)->Object_0 == *fields);
                        assert(decreases_to!(*fields => fields@));
                        assert(decreases_to!(fields@ => fields@[i as int]));
                        assert(decreases_to!(fields@[i as int] => fields@[i as int].value));
                        assert(decreases_to!(self => fields@[i as int].value));
                    }
                    out.push(
                        Field {
                            name: fields[i].name.clone(),
                            value: fields[i].value.deep_copy(),
                        },
                    );
                    i = i + 1;
                }
                proof {
                    lemma_fields_model_congruence(out@, fields@);
                }
                Document::Object(out)
            },
        }
    }
}

impl Document {
    /// Set (or add) a field on an object; any other document is returned
    /// unchanged, because enrichment degrades rather than fails.
    pub fn insert_field(self, name: String, value: Document) -> (r: Document)
        ensures
            self.is_object() ==> r.is_object() && r.model() == DocModel::Object(
                self.obj().insert(name@, value.model()),
            ),
            !self.is_object() ==> r == self,
    {
        match self {
            Document::Object(mut fields) => {
                let ghost pre = fields@;
                fields.push(Field { name, value });
                proof {
                    assert(fields@.subrange(0, fields@.len() - 1) =~= pre);
                }
                Document::Object(fields)
            },
            other => other,
        }
    }

    /// An object with exactly one field.
    pub fn singleton_object(name: String, value: Document) -> (r: Document)
        ensures
            r.is_object(),
            r.model() == DocModel::Object(
                Map::<Seq<char>, DocModel>::empty().insert(name@, value.model()),
            ),
    {
        let mut fields: Vec<Field> = Vec::new();
        fields.push(Field { name, value });
        proof {
            assert(fields@.subrange(0, 0) =~= Seq::<Field>::empty());
            assert(fields_model(Seq::<Field>::empty()) =~= Map::<Seq<char>, DocModel>::empty());
        }
        Document::Object(fields)
    }

    /// The strings of an array whose elements are all text scalars.
    pub fn as_text_array(&self) -> (r: Option<Vec<String>>)
        ensures
            match r {
                Some(v) => self.model() matches DocModel::Array(s) && v@.len() == s.len()
                    && (forall|i: int| 0 <= i < s.len() ==> s[i] == DocModel::Text(v@[i]@)),
                None => !(self.model() matches DocModel::Array(s) && all_text(s)),
            },
    {
        match self {
            Document::Array(v) => {
                proof {
                    lemma_seq_model(v@);
                }
                let mut out: Vec<String> = Vec::new();
                let mut i: usize = 0;
                while i < v.len()
                    invariant
                        i <= v.len(),
                        out@.len() == i,
                        *self == Document::Array(*v),
                        seq_model(v@).len() == v@.len(),
                        forall|j: int| 0 <= j < v@.len() ==> seq_model(v@)[j] == v@[j].model(),
                        forall|j: int| 0 <= j < i ==> seq_model(v@)[j] == DocModel::Text(
                            out@[j]@,
                        ),
                    decreases v.len() - i,
                {
                    match &v[i] {
                        Document::Text(s) => {
                            out.push(s.clone());
                        },
                        _ => {
                            proof {
                                assert(!(v@[i as int].model() is Text));
                                assert(!(seq_model(v@)[i as int] is Text));
                                assert(self.model() == DocModel::Array(seq_model(v@)));
                                assert(!all_text(seq_model(v@)));
                            }
                            return None;
                        },
                    }
                    i = i + 1;
                }
                Some(out)
            },
            _ => None,
        }
    }
}

/// The model of an optional document.
pub open spec fn opt_model(o: Option<Document>) -> Option<DocModel> {
    match o {
        Some(d) => Some(d.model()),
        None => None,
    }
}

/// Whether every element of a model sequence is a text scalar.
pub open spec fn all_text(s: Seq<DocModel>) -> bool {
    forall|i: int| 0 <= i < s.len() ==> #[trigger] s[i] is Text
}

/// Copy each document in a vector.
pub fn copy_documents(v: &Vec<Document>) -> (r: Vec<Document>)
    ensures
        seq_model(r@) == seq_model(v@),
{
    let mut out: Vec<Document> = Vec::new();
    let mut i: usize = 0;
    while i < v.len()
        invariant
            i <= v.len(),
            out@.len() == i,
            forall|j: int| 0 <= j < i ==> out@[j].model() == v@[j].model(),
        decreases v.len() - i,
    {
        out.push(v[i].deep_copy());
        i = i + 1;
    }
    proof {
        lemma_seq_model(out@);
        lemma_seq_model(v@);
        assert(seq_model(out@) =~= seq_model(v@));
    }
    out
}

/// Entry sequences that agree on names and value models have equal field maps.
pub proof fn lemma_fields_model_congruence(a: Seq<Field>, b: Seq<Field>)
    requires
        a.len() == b.len(),
        forall|j: int| #![trigger a[j]] 0 <= j < a.len() ==> a[j].name@ == b[j].name@
            && a[j].value.model() == b[j].value.model(),
    ensures
        fields_model(a) =~= fields_model(b),
    decreases a,
{
    if a.len() > 0 {
        lemma_fields_model_congruence(a.subrange(0, a.len() - 1), b.subrange(0, b.len() - 1));
    }
}

} // verus!
