//! Experiments as a document store keeps them: the document, the ids that
//! the store gives, and what is asked of the store and made of its answers
//! when an experiment is saved, fetched, listed or deleted.
//!
//! The store itself is not here. Each operation is a pair of steps: one
//! that says what to ask of the store, and one that turns the store's
//! answer into the operation's result.

use crate::json::{Json, JsonView};
use crate::service::experiment::{
    kept_by_save, variance_views, Classing, ClassingView, Experiment, ExperimentView, Interval,
    StoreError, Variance, VarianceView,
};
use crate::text::{ascii_lower, same_text};
use vstd::prelude::*;
use vstd::string::StringExecFns;

verus! {

/// Whether `c` is a hexadecimal digit, in either case.
pub open spec fn is_hex_digit(c: char) -> bool {
    ||| '0' <= c <= '9'
    ||| 'a' <= c <= 'f'
    ||| 'A' <= c <= 'F'
}

/// Whether `c` is a hexadecimal digit that is no capital letter.
pub open spec fn is_lower_hex_digit(c: char) -> bool {
    ||| '0' <= c <= '9'
    ||| 'a' <= c <= 'f'
}

/// Whether `s` writes an id of the store: 24 hexadecimal digits.
pub open spec fn is_object_id_text(s: Seq<char>) -> bool {
    &&& s.len() == 24
    &&& forall|i: int| 0 <= i < s.len() ==> is_hex_digit(#[trigger] s[i])
}

/// Whether `s` writes an id as the store itself writes it: 24 hexadecimal
/// digits, none of them a capital letter.
pub open spec fn is_canonical_object_id(s: Seq<char>) -> bool {
    &&& s.len() == 24
    &&& forall|i: int| 0 <= i < s.len() ==> is_lower_hex_digit(#[trigger] s[i])
}

/// `s` with its capital letters `A` to `Z` in lower case.
pub open spec fn lower_case(s: Seq<char>) -> Seq<char> {
    Seq::new(s.len(), |i: int| ascii_lower(s[i]))
}

/// The words in which `bson` refuses `text` as an id; meaningful where
/// `text` is no id.
pub uninterp spec fn object_id_failure(text: Seq<char>) -> Seq<char>;

/// Reads an id with `bson::oid::ObjectId::parse_str` and writes it again
/// with `ObjectId::to_hex`. The text is accepted exactly when it is 24
/// hexadecimal digits; what comes back is then the text with its capital
/// letters in lower case. A refusal comes in the words of `bson`'s error.
#[verifier::external_body]
fn object_id_hex(text: &str) -> (r: Result<String, String>)
    ensures
        r is Ok <==> is_object_id_text(text@),
        r matches Ok(hex) ==> hex@ == lower_case(text@),
        r matches Err(words) ==> words@ == object_id_failure(text@),
{
    bson::oid::ObjectId::parse_str(text).map(|id| id.to_hex()).map_err(|e| e.to_string())
}

/// Makes a new id with `bson::oid::ObjectId::new` and writes it with
/// `ObjectId::to_hex`: 24 hexadecimal digits, none a capital letter. Which
/// id comes is up to `bson`, which takes it from the clock, the process and
/// a counter, and stops the program where the clock stands before 1970 or
/// after 2106.
#[verifier::external_body]
fn fresh_object_id_hex() -> (r: String)
    ensures
        is_canonical_object_id(r@),
{
    bson::oid::ObjectId::new().to_hex()
}

/// The time by `chrono::Utc::now`, in milliseconds since the Unix epoch as
/// `DateTime::timestamp_millis` counts them. The clock decides, so nothing
/// is claimed of the result; `chrono` stops the program where the clock
/// stands before 1970.
#[verifier::external_body]
fn now_millis() -> (r: i64) {
    chrono::Utc::now().timestamp_millis()
}

/// An id under which the store keeps a document, as the store writes it.
#[derive(Debug, PartialEq, Eq)]
pub struct DocumentId {
    hex: String,
}

impl View for DocumentId {
    type V = Seq<char>;

    closed spec fn view(&self) -> Seq<char> {
        self.hex@
    }
}

impl Clone for DocumentId {
    fn clone(&self) -> (r: Self)
        ensures
            r == *self,
    {
        proof {
            use_type_invariant(self);
        }
        DocumentId { hex: self.hex.clone() }
    }
}

impl DocumentId {
    #[verifier::type_invariant]
    spec fn canonical(&self) -> bool {
        is_canonical_object_id(self.hex@)
    }

    /// The text of the id.
    pub closed spec fn text(&self) -> String {
        self.hex
    }

    /// Whether the id is written as the store writes it. Every id that
    /// this library hands out is.
    pub open spec fn wf(&self) -> bool {
        is_canonical_object_id(self@)
    }

    /// The text of an id is what the id shows.
    pub proof fn lemma_text(&self)
        ensures
            self.text()@ == self@,
    {
    }
}


/// What is said of the text `text` that was refused as an id in the words
/// `words`: that the pattern is wrong, the text itself, and the words.
pub open spec fn invalid_id_words(text: Seq<char>, words: Seq<char>) -> Seq<char> {
    "invalid id pattern id("@ + text + ") "@ + words
}

/// What is said of a text that is no id: that the pattern is wrong, the
/// text itself, and why it was refused.
pub open spec fn invalid_id_message(text: Seq<char>) -> Seq<char> {
    invalid_id_words(text, object_id_failure(text))
}

/// The error for the text `text` that was refused as an id in the words
/// `words`: invalid input, saying so.
pub fn invalid_id(text: &str, words: &str) -> (r: StoreError)
    ensures
        r == (StoreError::InvalidInput { message: r->InvalidInput_message }),
        r->InvalidInput_message@ == invalid_id_words(text@, words@),
{
    let mut message = String::from_str("invalid id pattern id(");
    message.append(text);
    message.append(") ");
    message.append(words);
    StoreError::InvalidInput { message }
}

impl DocumentId {
    /// Reads an id. A text of 24 hexadecimal digits is one, and its capital
    /// letters count as the lower-case ones; any other text is invalid
    /// input.
    pub fn parse(text: &str) -> (r: Result<DocumentId, StoreError>)
        ensures
            r is Ok <==> is_object_id_text(text@),
            r matches Ok(id) ==> id@ == lower_case(text@) && id.wf(),
            r matches Err(e) ==> e == (StoreError::InvalidInput { message: e->InvalidInput_message })
                && e->InvalidInput_message@ == invalid_id_message(text@),
    {
        match object_id_hex(text) {
            Ok(hex) => {
                proof {
                    lemma_lower_case_is_canonical(text@);
                }
                Ok(DocumentId { hex })
            },
            Err(words) => Err(invalid_id(text, words.as_str())),
        }
    }

    /// A new id. No contract says that it differs from the ids made
    /// before: the store refuses a document whose id it already holds.
    pub fn mint() -> (r: DocumentId)
        ensures
            r.wf(),
    {
        DocumentId { hex: fresh_object_id_hex() }
    }

    /// The id as text: 24 hexadecimal digits, none a capital letter.
    pub fn to_hex(&self) -> (r: String)
        ensures
            r == self.text(),
            r@ == self@,
            is_canonical_object_id(r@),
    {
        proof {
            use_type_invariant(self);
        }
        self.hex.clone()
    }

    /// The id as text, given away.
    pub fn into_hex(self) -> (r: String)
        ensures
            r == self.text(),
            r@ == self@,
            is_canonical_object_id(r@),
    {
        proof {
            use_type_invariant(&self);
        }
        self.hex
    }
}

/// The lower-case form of an id's text is an id as the store writes it.
pub proof fn lemma_lower_case_is_canonical(s: Seq<char>)
    requires
        is_object_id_text(s),
    ensures
        is_canonical_object_id(lower_case(s)),
{
    assert forall|i: int| 0 <= i < lower_case(s).len() implies is_lower_hex_digit(
        #[trigger] lower_case(s)[i],
    ) by {
        assert(is_hex_digit(s[i]));
    }
}

/// An id as the store writes it stays as it is when read again.
pub proof fn lemma_canonical_is_kept(s: Seq<char>)
    requires
        is_canonical_object_id(s),
    ensures
        is_object_id_text(s),
        lower_case(s) == s,
{
    assert forall|i: int| 0 <= i < s.len() implies is_hex_digit(#[trigger] s[i]) by {
        assert(is_lower_hex_digit(s[i]));
    }
    assert forall|i: int| 0 <= i < s.len() implies lower_case(s)[i] == s[i] by {
        assert(is_lower_hex_digit(s[i]));
    }
    assert(lower_case(s) =~= s);
}


/// The mathematical value of a [`Document`].
pub struct DocumentView {
    pub _id: Option<Seq<char>>,
    pub name: Seq<char>,
    pub description: Seq<char>,
    pub active_interval: Option<Interval>,
    pub variances: Seq<VarianceView>,
    pub classing: ClassingView,
    pub owner: Option<JsonView>,
    pub tenant_id: Seq<char>,
    pub created_at: Option<i64>,
    pub updated_at: Option<i64>,
    pub deleted_at: Option<i64>,
}

impl View for Document {
    type V = DocumentView;

    open spec fn view(&self) -> DocumentView {
        DocumentView {
            _id: match self._id {
                Some(id) => Some(id@),
                None => None,
            },
            name: self.name@,
            description: self.description@,
            active_interval: self.active_interval,
            variances: variance_views(self.variances@),
            classing: self.classing@,
            owner: match self.owner {
                Some(owner) => Some(owner@),
                None => None,
            },
            tenant_id: self.tenant_id@,
            created_at: self.created_at,
            updated_at: self.updated_at,
            deleted_at: self.deleted_at,
        }
    }
}

/// An experiment as the store keeps it. `_id` is the id that the store
/// keeps it under, as text.
#[derive(Debug, Clone, PartialEq)]
pub struct Document {
    pub _id: Option<String>,
    pub name: String,
    pub description: String,
    pub active_interval: Option<Interval>,
    pub variances: Vec<Variance>,
    pub classing: Classing,
    pub owner: Option<Json>,
    pub tenant_id: String,
    pub created_at: Option<i64>,
    pub updated_at: Option<i64>,
    pub deleted_at: Option<i64>,
}

impl From<Experiment> for Document {
    fn from(data: Experiment) -> (r: Document) {
        Document {
            _id: data.id,
            name: data.name,
            description: data.description,
            active_interval: data.active_interval,
            variances: data.variances,
            classing: data.classing,
            owner: data.owner,
            tenant_id: data.tenant_id,
            created_at: data.created_at,
            updated_at: data.updated_at,
            deleted_at: data.deleted_at,
        }
    }
}

impl vstd::std_specs::convert::FromSpecImpl<Experiment> for Document {
    open spec fn obeys_from_spec() -> bool {
        true
    }

    open spec fn from_spec(data: Experiment) -> Document {
        Document {
            _id: data.id,
            name: data.name,
            description: data.description,
            active_interval: data.active_interval,
            variances: data.variances,
            classing: data.classing,
            owner: data.owner,
            tenant_id: data.tenant_id,
            created_at: data.created_at,
            updated_at: data.updated_at,
            deleted_at: data.deleted_at,
        }
    }
}

impl From<Document> for Experiment {
    fn from(doc: Document) -> (r: Experiment) {
        Experiment {
            id: doc._id,
            name: doc.name,
            description: doc.description,
            active_interval: doc.active_interval,
            variances: doc.variances,
            classing: doc.classing,
            owner: doc.owner,
            tenant_id: doc.tenant_id,
            created_at: doc.created_at,
            updated_at: doc.updated_at,
            deleted_at: doc.deleted_at,
        }
    }
}

impl vstd::std_specs::convert::FromSpecImpl<Document> for Experiment {
    open spec fn obeys_from_spec() -> bool {
        true
    }

    open spec fn from_spec(doc: Document) -> Experiment {
        Experiment {
            id: doc._id,
            name: doc.name,
            description: doc.description,
            active_interval: doc.active_interval,
            variances: doc.variances,
            classing: doc.classing,
            owner: doc.owner,
            tenant_id: doc.tenant_id,
            created_at: doc.created_at,
            updated_at: doc.updated_at,
            deleted_at: doc.deleted_at,
        }
    }
}

/// The document of an experiment.
pub open spec fn document_of(data: Experiment) -> Document {
    <Document as vstd::std_specs::convert::FromSpec<Experiment>>::from_spec(data)
}

/// The experiment of a document.
pub open spec fn entity_of(doc: Document) -> Experiment {
    <Experiment as vstd::std_specs::convert::FromSpec<Document>>::from_spec(doc)
}

/// `doc` as it is inserted at the time `now` under the id `id`: the id is
/// set, the time of the last change is `now`, and so is the time of
/// creation unless the document has one.
pub open spec fn stamped(doc: Document, now: i64, id: String) -> Document {
    Document {
        _id: Some(id),
        created_at: Some(
            match doc.created_at {
                Some(t) => t,
                None => now,
            },
        ),
        updated_at: Some(now),
        ..doc
    }
}

/// `doc` as it is inserted at the time `now` under the id `id`.
pub fn stamp(doc: Document, now: i64, id: DocumentId) -> (r: Document)
    ensures
        r == stamped(doc, now, id.text()),
{
    let created_at = match doc.created_at {
        Some(t) => t,
        None => now,
    };
    Document {
        _id: Some(id.into_hex()),
        name: doc.name,
        description: doc.description,
        active_interval: doc.active_interval,
        variances: doc.variances,
        classing: doc.classing,
        owner: doc.owner,
        tenant_id: doc.tenant_id,
        created_at: Some(created_at),
        updated_at: Some(now),
        deleted_at: doc.deleted_at,
    }
}


/// The id under which the store says it has put a document.
#[derive(Debug, Clone, PartialEq, Eq)]
pub enum InsertedId {
    /// An id of the store's own kind.
    ObjectId(DocumentId),
    /// Anything else.
    Other,
}

/// A save that is under way: the document to insert, and the id that the
/// experiment had before.
#[derive(Debug, Clone, PartialEq)]
pub struct PendingSave {
    pub document: Document,
    pub previous_id: Option<String>,
}

/// An experiment that was not saved, with the reason.
#[derive(Debug, Clone, PartialEq)]
pub struct SaveRejected {
    pub data: Experiment,
    pub error: StoreError,
}

/// How a save ended: the experiment as it now is, and the id it was stored
/// under or the reason why it was not stored.
#[derive(Debug, PartialEq)]
pub struct Saved {
    pub data: Experiment,
    pub result: Result<String, StoreError>,
}

/// Whether `pending` is a save of `data` under way: the document is that of
/// `data`, stamped with some time and with an id as the store writes it,
/// which is the id of `data` where it has one.
pub open spec fn begun(data: Experiment, pending: PendingSave) -> bool {
    &&& pending.previous_id == data.id
    &&& pending.document._id matches Some(id)
    &&& pending.document.updated_at matches Some(now)
    &&& pending.document == stamped(document_of(data), now, id)
    &&& is_canonical_object_id(id@)
    &&& data.id matches Some(text) ==> id@ == lower_case(text@)
}

/// Whether `saved` is how the save `pending` ends where the store has
/// answered the insert with `outcome`. Where the store names an id of its
/// own kind, the experiment has that id and the save returns it. Otherwise
/// the experiment keeps the id it had, and the save fails with an internal
/// error: in the store's words where the store failed, and for want of an
/// id where it named none. Either way the rest of the experiment is that of
/// the document.
pub open spec fn concluded(pending: PendingSave, outcome: Result<InsertedId, String>, saved: Saved)
    -> bool {
    match outcome {
        Ok(InsertedId::ObjectId(id)) => {
            &&& saved.data == (Experiment { id: Some(id.text()), ..entity_of(pending.document) })
            &&& saved.result == Ok::<String, StoreError>(id.text())
        },
        Ok(InsertedId::Other) => {
            &&& saved.data == (Experiment {
                id: pending.previous_id,
                ..entity_of(pending.document)
            })
            &&& saved.result is Err
            &&& saved.result->Err_0 is InternalError
            &&& saved.result->Err_0->InternalError_message@ == "undefined inserted id"@
        },
        Err(words) => {
            &&& saved.data == (Experiment {
                id: pending.previous_id,
                ..entity_of(pending.document)
            })
            &&& saved.result == Err::<String, StoreError>(
                StoreError::InternalError { message: words },
            )
        },
    }
}

/// The first step of a save: the document to insert.
///
/// An experiment without an id gets a new one. An experiment with an id
/// keeps it, written as the store writes it, so that the store can refuse
/// what it already holds; an id that is none is invalid input, and the
/// experiment comes back as it was. The document carries the time of this
/// call as the time of its last change, and as the time of its creation
/// unless the experiment has one.
pub fn begin_save(data: Experiment) -> (r: Result<PendingSave, SaveRejected>)
    ensures
        r is Err <==> (data.id matches Some(text) && !is_object_id_text(text@)),
        r matches Err(rejected) ==> rejected.data == data && rejected.error == (
        StoreError::InvalidInput { message: rejected.error->InvalidInput_message })
            && rejected.error->InvalidInput_message@ == invalid_id_message(data.id->0@),
        r matches Ok(pending) ==> begun(data, pending),
{
    let parsed = match &data.id {
        Some(text) => DocumentId::parse(text.as_str()),
        None => Ok(DocumentId::mint()),
    };
    match parsed {
        Ok(id) => {
            let now = now_millis();
            let previous_id = match &data.id {
                Some(text) => Some(text.clone()),
                None => None,
            };
            proof {
                id.lemma_text();
            }
            Ok(PendingSave { document: stamp(Document::from(data), now, id), previous_id })
        },
        Err(error) => Err(SaveRejected { data, error }),
    }
}

impl PendingSave {
    /// The experiment as it is after the store has answered the insert with
    /// `outcome`, and what the save returns.
    ///
    /// Where the store names an id of its own kind, the experiment has that
    /// id and the save returns it. Otherwise the experiment keeps the id it
    /// had, and the save fails with an internal error: in the store's words
    /// where the store failed, and for want of an id where it named none.
    /// Either way the experiment has the times of the document.
    pub fn conclude(self, outcome: Result<InsertedId, String>) -> (r: Saved)
        ensures
            concluded(self, outcome, r),
            r.result matches Ok(id) ==> is_canonical_object_id(id@),
    {
        let mut data = Experiment::from(self.document);
        match outcome {
            Ok(InsertedId::ObjectId(id)) => {
                proof {
                    id.lemma_text();
                }
                let hex = id.to_hex();
                data.id = Some(id.into_hex());
                Saved { data, result: Ok(hex) }
            },
            Ok(InsertedId::Other) => {
                data.id = self.previous_id;
                Saved {
                    data,
                    result: Err(
                        StoreError::InternalError {
                            message: String::from_str("undefined inserted id"),
                        },
                    ),
                }
            },
            Err(words) => {
                data.id = self.previous_id;
                Saved { data, result: Err(StoreError::InternalError { message: words }) }
            },
        }
    }
}

/// The first step of a fetch: the id to look up. A text that is no id is
/// invalid input, and the store is not asked.
pub fn get_query(id: &str) -> (r: Result<DocumentId, StoreError>)
    ensures
        r is Ok <==> is_object_id_text(id@),
        r matches Ok(key) ==> key@ == lower_case(id@) && key.wf(),
        r matches Err(e) ==> e == (StoreError::InvalidInput { message: e->InvalidInput_message })
            && e->InvalidInput_message@ == invalid_id_message(id@),
{
    DocumentId::parse(id)
}

/// What a fetch for the tenant `tenant_id` returns where the store has
/// answered the lookup with `found`: an internal error in the store's words
/// where the store failed; that there is no such document where it found
/// none; a refusal where the document belongs to another tenant; else the
/// experiment of the document.
pub open spec fn get_outcome(found: Result<Option<Document>, String>, tenant_id: Seq<char>)
    -> Result<Experiment, StoreError> {
    match found {
        Err(words) => Err(StoreError::InternalError { message: words }),
        Ok(None) => Err(StoreError::DocumentNotfound),
        Ok(Some(doc)) => if doc.tenant_id@ == tenant_id {
            Ok(entity_of(doc))
        } else {
            Err(StoreError::UnauthorizedAccess)
        },
    }
}

/// The last step of a fetch: what it returns. Nothing of a document of
/// another tenant is returned.
pub fn conclude_get(found: Result<Option<Document>, String>, tenant_id: &str) -> (r: Result<
    Experiment,
    StoreError,
>)
    ensures
        r == get_outcome(found, tenant_id@),
{
    match found {
        Err(words) => Err(StoreError::InternalError { message: words }),
        Ok(None) => Err(StoreError::DocumentNotfound),
        Ok(Some(doc)) => {
            if same_text(doc.tenant_id.as_str(), tenant_id) {
                Ok(Experiment::from(doc))
            } else {
                Err(StoreError::UnauthorizedAccess)
            }
        },
    }
}

/// What to ask of the store for a list: the documents of one tenant, after
/// the first `skip` of them, `limit` at most.
#[derive(Debug, Clone, PartialEq, Eq)]
pub struct ListQuery {
    pub tenant_id: String,
    pub skip: u64,
    pub limit: i64,
}

/// The first step of a list: what to ask of the store. A number too large
/// for the store stands for the largest that the store takes.
pub fn list_query(tenant_id: &str, offset: usize, limit: usize) -> (r: ListQuery)
    ensures
        r.tenant_id@ == tenant_id@,
        r.skip == offset,
        r.limit == if limit <= i64::MAX { limit as int } else { i64::MAX as int },
{
    let wanted = limit as u64;
    let most = i64::MAX as u64;
    ListQuery {
        tenant_id: String::from_str(tenant_id),
        skip: offset as u64,
        limit: if wanted <= most {
            wanted as i64
        } else {
            i64::MAX
        },
    }
}

/// The experiments of those of `docs` that belong to `tenant_id`, in their
/// order, `limit` at most.
pub open spec fn listed(docs: Seq<Document>, tenant_id: Seq<char>, limit: nat) -> Seq<Experiment>
    decreases docs.len(),
{
    if docs.len() == 0 || limit == 0 {
        Seq::empty()
    } else if docs[0].tenant_id@ == tenant_id {
        seq![entity_of(docs[0])] + listed(docs.drop_first(), tenant_id, (limit - 1) as nat)
    } else {
        listed(docs.drop_first(), tenant_id, limit)
    }
}

/// What a list for the tenant `tenant_id` returns where the store has
/// answered with `reply`.
pub open spec fn list_outcome(
    reply: Result<Vec<Document>, String>,
    tenant_id: Seq<char>,
    limit: nat,
) -> Result<Seq<Experiment>, StoreError> {
    match reply {
        Err(words) => Err(StoreError::InternalError { message: words }),
        Ok(docs) => Ok(listed(docs@, tenant_id, limit)),
    }
}

/// The last step of a list: what it returns. Whatever the store has
/// answered, no experiment of another tenant is returned, and no more than
/// `limit`.
pub fn conclude_list(reply: Result<Vec<Document>, String>, tenant_id: &str, limit: usize) -> (r:
    Result<Vec<Experiment>, StoreError>)
    ensures
        match r {
            Ok(experiments) => list_outcome(reply, tenant_id@, limit as nat) == Ok::<
                Seq<Experiment>,
                StoreError,
            >(experiments@),
            Err(e) => list_outcome(reply, tenant_id@, limit as nat) == Err::<
                Seq<Experiment>,
                StoreError,
            >(e),
        },
        r matches Ok(experiments) ==> experiments@.len() <= limit && forall|i: int|
            0 <= i < experiments@.len() ==> (#[trigger] experiments@[i]).tenant_id@ == tenant_id@,
{
    match reply {
        Err(words) => Err(StoreError::InternalError { message: words }),
        Ok(docs) => {
            let ghost all = docs@;
            let mut out: Vec<Experiment> = Vec::new();
            proof {
                lemma_listed(all, tenant_id@, limit as nat);
            }
            assert(all.subrange(0, all.len() as int) =~= all);
            for doc in it: docs
                invariant
                    it.seq() == all,
                    out@.len() <= limit,
                    out@ + listed(
                        all.subrange(it.index() as int, all.len() as int),
                        tenant_id@,
                        (limit - out@.len()) as nat,
                    ) == listed(all, tenant_id@, limit as nat),
            {
                let ghost rest = all.subrange(it.index() as int, all.len() as int);
                let ghost before = out@;
                assert(rest.drop_first() =~= all.subrange(it.index() + 1, all.len() as int));
                assert(rest[0] == doc);
                if out.len() < limit && same_text(doc.tenant_id.as_str(), tenant_id) {
                    out.push(Experiment::from(doc));
                    assert(out@ =~= before + seq![entity_of(doc)]);
                    assert(out@ + listed(rest.drop_first(), tenant_id@, (limit - out@.len()) as nat)
                        =~= before + listed(rest, tenant_id@, (limit - before.len()) as nat));
                }
            }
            assert(all.subrange(all.len() as int, all.len() as int).len() == 0);
            assert(out@ =~= listed(all, tenant_id@, limit as nat));
            Ok(out)
        },
    }
}

/// What is listed belongs to the tenant, and is no more than the limit.
pub proof fn lemma_listed(docs: Seq<Document>, tenant_id: Seq<char>, limit: nat)
    ensures
        listed(docs, tenant_id, limit).len() <= limit,
        listed(docs, tenant_id, limit).len() <= docs.len(),
        forall|i: int|
            0 <= i < listed(docs, tenant_id, limit).len() ==> (#[trigger] listed(
                docs,
                tenant_id,
                limit,
            )[i]).tenant_id@ == tenant_id,
    decreases docs.len(),
{
    if docs.len() == 0 || limit == 0 {
    } else if docs[0].tenant_id@ == tenant_id {
        lemma_listed(docs.drop_first(), tenant_id, (limit - 1) as nat);
    } else {
        lemma_listed(docs.drop_first(), tenant_id, limit);
    }
}


/// What a delete returns where the store has answered with `removed`.
pub open spec fn deleted(removed: Result<u64, String>) -> Result<(), StoreError> {
    match removed {
        Err(words) => Err(StoreError::InternalError { message: words }),
        Ok(n) => if n == 0 {
            Err(StoreError::DocumentNotfound)
        } else {
            Ok(())
        },
    }
}

/// The last step of a delete, after the document was fetched as for a
/// fetch and found to belong to the tenant: what the delete returns where
/// the store has answered with the number of documents that it removed. The
/// delete fails with an internal error in the store's words where the
/// store failed, and for want of the document where the store removed
/// none.
pub fn conclude_delete(removed: Result<u64, String>) -> (r: Result<(), StoreError>)
    ensures
        r == deleted(removed),
{
    match removed {
        Err(words) => Err(StoreError::InternalError { message: words }),
        Ok(n) => if n == 0 {
            Err(StoreError::DocumentNotfound)
        } else {
            Ok(())
        },
    }
}

/// Whether two experiments say the same but for their ids and the times of
/// their creation and last change.
pub open spec fn same_content(a: Experiment, b: Experiment) -> bool {
    &&& a.name == b.name
    &&& a.description == b.description
    &&& a.active_interval == b.active_interval
    &&& a.variances == b.variances
    &&& a.classing == b.classing
    &&& a.owner == b.owner
    &&& a.tenant_id == b.tenant_id
    &&& a.deleted_at == b.deleted_at
}

/// The mathematical value of the document of an experiment: what the
/// experiment says, field by field, with the id of the experiment as the id
/// that the store keeps the document under.
pub open spec fn document_view_of(data: ExperimentView) -> DocumentView {
    DocumentView {
        _id: data.id,
        name: data.name,
        description: data.description,
        active_interval: data.active_interval,
        variances: data.variances,
        classing: data.classing,
        owner: data.owner,
        tenant_id: data.tenant_id,
        created_at: data.created_at,
        updated_at: data.updated_at,
        deleted_at: data.deleted_at,
    }
}

/// A document says what its experiment says, and an experiment what its
/// document says: neither conversion adds, drops or changes a field.
pub proof fn lemma_document_says_what_experiment_says(data: Experiment, doc: Document)
    ensures
        document_of(data)@ == document_view_of(data@),
        doc@ == document_view_of(entity_of(doc)@),
{
}

/// An experiment that is made a document and an experiment again is the
/// experiment that it was, and so for a document.
pub proof fn lemma_round_trip(data: Experiment, doc: Document)
    ensures
        entity_of(document_of(data)) == data,
        document_of(entity_of(doc)) == doc,
{
}

/// A save changes of an experiment its id and its times, and nothing else;
/// it keeps a time of creation that the experiment has, and sets the time
/// of the save where it has none. `data` is the experiment before the
/// save, `now` the time of the save, `id` the id of the document that the
/// save inserts, and `after_id` the id that the experiment has after the
/// save, whatever the store answered.
pub proof fn lemma_save_keeps_content(
    data: Experiment,
    now: i64,
    id: String,
    after_id: Option<String>,
)
    ensures
        ({
            let after = Experiment {
                id: after_id,
                ..entity_of(stamped(document_of(data), now, id))
            };
            &&& same_content(after, data)
            &&& after.updated_at == Some(now)
            &&& after.created_at is Some
            &&& data.created_at is Some ==> after.created_at == data.created_at
            &&& data.created_at is None ==> after.created_at == Some(now)
        }),
{
}

/// An experiment that was saved is fetched again by its own tenant as it
/// was given, but for its id and its times: it has the id that it was
/// stored under, the time of the save as the time of its last change, and
/// as the time of its creation where it had none.
///
/// `data` is the experiment handed to the save, `now` the time of the save
/// and `id` the id of the document that the save inserted; the fetch finds
/// that document.
pub proof fn lemma_get_returns_what_was_saved(data: Experiment, now: i64, id: String)
    ensures
        get_outcome(Ok(Some(stamped(document_of(data), now, id))), data.tenant_id@) == Ok::<
            Experiment,
            StoreError,
        >(
            Experiment {
                id: Some(id),
                created_at: Some(
                    match data.created_at {
                        Some(t) => t,
                        None => now,
                    },
                ),
                updated_at: Some(now),
                ..data
            },
        ),
{
}

/// An experiment that was saved is listed for its own tenant, and for no
/// other: where the store holds the one document, a list for the tenant of
/// the experiment returns the experiment as a fetch would, its name and
/// all, and a list for any other tenant returns nothing.
///
/// `data` is the experiment handed to the save, `now` the time of the save
/// and `id` the id of the document that the save inserted. A list of at
/// most no experiments returns none, so `limit` is one at least.
pub proof fn lemma_saved_is_listed_for_its_tenant_alone(
    data: Experiment,
    now: i64,
    id: String,
    other_tenant: Seq<char>,
    limit: nat,
)
    requires
        limit >= 1,
        other_tenant != data.tenant_id@,
    ensures
        listed(seq![stamped(document_of(data), now, id)], data.tenant_id@, limit) == seq![
            Experiment {
                id: Some(id),
                created_at: Some(
                    match data.created_at {
                        Some(t) => t,
                        None => now,
                    },
                ),
                updated_at: Some(now),
                ..data
            },
        ],
        listed(seq![stamped(document_of(data), now, id)], other_tenant, limit) == Seq::<
            Experiment,
        >::empty(),
{
    let docs = seq![stamped(document_of(data), now, id)];
    assert(docs.drop_first() =~= Seq::<Document>::empty());
    assert(listed(docs.drop_first(), data.tenant_id@, (limit - 1) as nat) =~= Seq::<
        Experiment,
    >::empty());
    assert(listed(docs, data.tenant_id@, limit) =~= seq![entity_of(docs[0])]);
    assert(listed(docs.drop_first(), other_tenant, limit) =~= Seq::<Experiment>::empty());
    assert(docs[0].tenant_id@ != other_tenant);
}

/// An experiment that was saved is not fetched by any other tenant: the
/// fetch is refused, and returns nothing of the document.
pub proof fn lemma_other_tenant_is_refused(
    data: Experiment,
    now: i64,
    id: String,
    other_tenant: Seq<char>,
)
    requires
        other_tenant != data.tenant_id@,
    ensures
        get_outcome(Ok(Some(stamped(document_of(data), now, id))), other_tenant) == Err::<
            Experiment,
            StoreError,
        >(StoreError::UnauthorizedAccess),
{
}

/// Two experiments with different content that were both saved have
/// different ids, and neither id is empty.
///
/// `first` and `second` are the experiments, saved at the times `now_first`
/// and `now_second`; `id_first` and `id_second` are the ids that the store
/// named, and `held` is what the store holds after both saves, by id. That
/// a store keeps one document under one id is the store's part; that each
/// save put its own document there is what `held` is asked to show.
pub proof fn lemma_saved_ids_differ(
    first: Experiment,
    second: Experiment,
    now_first: i64,
    now_second: i64,
    id_first: DocumentId,
    id_second: DocumentId,
    held: Map<Seq<char>, Document>,
)
    requires
        !same_content(first, second),
        id_first.wf(),
        id_second.wf(),
        held.contains_key(id_first@),
        held.contains_key(id_second@),
        held[id_first@] == stamped(document_of(first), now_first, id_first.text()),
        held[id_second@] == stamped(document_of(second), now_second, id_second.text()),
    ensures
        id_first@ != id_second@,
        id_first@.len() > 0,
        id_second@.len() > 0,
{
}


/// Saves `data` in the store that `insert_one` inserts into, and returns
/// the id that it is stored under. `insert_one` gets the document to
/// insert and returns what the store answered: the id that it put the
/// document under, or its failure in words.
///
/// The experiment then has that id and the times of its creation and last
/// change. An experiment whose id is no id of the store is invalid input
/// and stays as it is; the store is then not asked. Where the store fails
/// or names no id the save fails with an internal error, and the
/// experiment keeps the id that it had. Nothing else of the experiment
/// changes in any case. On every other input the store is asked once, to
/// insert the document that [`begun`] describes, and the save ends as
/// [`concluded`] says of its answer.
pub fn save<F>(data: &mut Experiment, insert_one: F) -> (r: Result<String, StoreError>) where
    F: FnOnce(&Document) -> Result<InsertedId, String>,

    requires
        forall|doc: &Document| call_requires(insert_one, (doc,)),
    ensures
        same_content(*final(data), *old(data)),
        old(data).created_at is Some ==> final(data).created_at == old(data).created_at,
        kept_by_save(old(data)@, final(data)@),
        (old(data).id is Some && !is_object_id_text(old(data).id->0@)) ==> *final(data) == *old(
            data,
        ) && (r matches Err(StoreError::InvalidInput { message }) && message@
            == invalid_id_message(old(data).id->0@)),
        r matches Ok(id) ==> {
            &&& is_canonical_object_id(id@)
            &&& (final(data).id matches Some(own) && own@ == id@)
            &&& final(data).created_at is Some
            &&& final(data).updated_at is Some
        },
        r matches Err(e) ==> final(data).id == old(data).id && (e is InvalidInput
            || e is InternalError),
        r matches Err(StoreError::InvalidInput { .. }) ==> (old(data).id is Some
            && !is_object_id_text(old(data).id->0@)),
        !(old(data).id is Some && !is_object_id_text(old(data).id->0@)) ==> exists|
            pending: PendingSave,
            outcome: Result<InsertedId, String>,
        |
            {
                &&& begun(*old(data), pending)
                &&& call_ensures(insert_one, (&pending.document,), outcome)
                &&& concluded(pending, outcome, (Saved { data: *final(data), result: r }))
            },
{
    let mut taken = Experiment::default();
    core::mem::swap(data, &mut taken);
    match begin_save(taken) {
        Err(rejected) => {
            *data = rejected.data;
            Err(rejected.error)
        },
        Ok(pending) => {
            let ghost begun_as = pending;
            let outcome = insert_one(&pending.document);
            let ghost answered = outcome;
            let saved = pending.conclude(outcome);
            *data = saved.data;
            let r = saved.result;
            assert(call_ensures(insert_one, (&begun_as.document,), answered));
            assert(concluded(begun_as, answered, (Saved { data: *data, result: r })));
            r
        },
    }
}

/// Fetches the experiment stored under `id` for the tenant `tenant_id`
/// from the store that `find_one` looks into. `find_one` gets the id to
/// look up and returns what the store answered: the document under that
/// id, if there is one, or its failure in words.
///
/// A text that is no id is invalid input, and the store is not asked.
/// Otherwise the store is asked for the id, written as the store writes
/// it, and the fetch returns what [`get_outcome`] says of the answer:
/// nothing of a document of another tenant is returned.
pub fn get<F>(id: &str, tenant_id: &str, find_one: F) -> (r: Result<Experiment, StoreError>) where
    F: FnOnce(&DocumentId) -> Result<Option<Document>, String>,

    requires
        forall|key: &DocumentId| call_requires(find_one, (key,)),
    ensures
        !is_object_id_text(id@) ==> (r matches Err(StoreError::InvalidInput { message })
            && message@ == invalid_id_message(id@)),
        is_object_id_text(id@) ==> exists|key: &DocumentId, found: Result<Option<Document>, String>|
            key@ == lower_case(id@) && call_ensures(find_one, (key,), found) && r == get_outcome(
                found,
                tenant_id@,
            ),
        r matches Ok(found) ==> found.tenant_id@ == tenant_id@,
{
    match get_query(id) {
        Err(e) => Err(e),
        Ok(key) => {
            let found = find_one(&key);
            conclude_get(found, tenant_id)
        },
    }
}

/// Lists the experiments of the tenant `tenant_id` after the first
/// `offset` of them, `limit` at most, from the store that `find` looks
/// into. `find` gets what to ask and returns what the store answered: the
/// documents, or its failure in words.
///
/// The list returns what [`list_outcome`] says of the answer: whatever the
/// store answers, no experiment of another tenant is returned, and no more
/// than `limit`.
pub fn list<F>(tenant_id: &str, offset: usize, limit: usize, find: F) -> (r: Result<
    Vec<Experiment>,
    StoreError,
>) where F: FnOnce(&ListQuery) -> Result<Vec<Document>, String>
    requires
        forall|query: &ListQuery| call_requires(find, (query,)),
    ensures
        exists|query: &ListQuery, reply: Result<Vec<Document>, String>|
            {
                &&& query.tenant_id@ == tenant_id@
                &&& query.skip == offset
                &&& query.limit == if limit <= i64::MAX {
                    limit as int
                } else {
                    i64::MAX as int
                }
                &&& call_ensures(find, (query,), reply)
                &&& match r {
                    Ok(experiments) => list_outcome(reply, tenant_id@, limit as nat) == Ok::<
                        Seq<Experiment>,
                        StoreError,
                    >(experiments@),
                    Err(e) => list_outcome(reply, tenant_id@, limit as nat) == Err::<
                        Seq<Experiment>,
                        StoreError,
                    >(e),
                }
            },
        r matches Ok(experiments) ==> experiments@.len() <= limit && forall|i: int|
            0 <= i < experiments@.len() ==> (#[trigger] experiments@[i]).tenant_id@ == tenant_id@,
{
    let query = list_query(tenant_id, offset, limit);
    let reply = find(&query);
    conclude_list(reply, tenant_id, limit)
}

/// Deletes the experiment stored under `id` for the tenant `tenant_id`
/// from the store that `find_one` looks into and `delete_one` removes
/// from. `delete_one` gets the id to remove and returns the number of
/// documents that the store removed, or its failure in words.
///
/// The document is first fetched as [`get`] fetches it, and the delete
/// fails as the fetch does: nothing is removed that belongs to another
/// tenant. Then the store is asked to remove it, and the delete returns
/// what [`conclude_delete`] says of the answer.
pub fn delete<F, G>(id: &str, tenant_id: &str, find_one: F, delete_one: G) -> (r: Result<
    (),
    StoreError,
>) where
    F: FnOnce(&DocumentId) -> Result<Option<Document>, String>,
    G: FnOnce(&DocumentId) -> Result<u64, String>,

    requires
        forall|key: &DocumentId| call_requires(find_one, (key,)),
        forall|key: &DocumentId| call_requires(delete_one, (key,)),
    ensures
        !is_object_id_text(id@) ==> (r matches Err(StoreError::InvalidInput { message })
            && message@ == invalid_id_message(id@)),
        is_object_id_text(id@) ==> exists|key: &DocumentId, found: Result<Option<Document>, String>|
            {
                &&& key@ == lower_case(id@)
                &&& call_ensures(find_one, (key,), found)
                &&& match get_outcome(found, tenant_id@) {
                    Err(e) => r == Err::<(), StoreError>(e),
                    Ok(_) => exists|removed: Result<u64, String>|
                        call_ensures(delete_one, (key,), removed) && r == deleted(removed),
                }
            },
{
    match get_query(id) {
        Err(e) => Err(e),
        Ok(key) => {
            let found = find_one(&key);
            match conclude_get(found, tenant_id) {
                Err(e) => Err(e),
                Ok(_) => {
                    let removed = delete_one(&key);
                    conclude_delete(removed)
                },
            }
        },
    }
}

} // verus!
