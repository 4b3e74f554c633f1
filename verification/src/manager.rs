//! The index manager: the schema, the writer with its accounting, the
//! statistics and the search.

use vstd::prelude::*;
use vstd::string::StringExecFns;
use crate::document::{prepare_document, FieldName, FileDocument};
use crate::error::IndexError;
use crate::file_info::FileInfo;
use crate::index::{
    add_indexed_text_field, add_stored_text_field, build_schema, builder_fields, create_in_ram,
    document_add_text, document_first_text, document_values, fetch_doc, first_text, get_field,
    ids_in_range, index_fields, is_field_name, name_is_free, new_index_document,
    new_query_parser, new_schema_builder, open_reader, open_writer, parser_boosts,
    parser_defaults, parser_fields, parser_set_boost, reader_searcher, run_query, schema_fields,
    schema_of, searcher_docs, searcher_num_docs, writer_add, writer_commit, writer_wait_merges,
};
use crate::limits::{
    COMMIT_BATCH_SIZE, PLAIN_COMMIT_INTERVAL, SEARCH_LIMIT, SMALL_INDEX_BUFFER_SIZE,
};
use crate::search::{hit_failure, project_hit, SearchDoc};
use crate::text::{decimal, push_decimal};
use crate::writer::{is_commit_due, AttemptOutcome};

verus! {

impl FieldName {
    /// The name of the field in the schema.
    pub open spec fn key_text(self) -> Seq<char> {
        match self {
            FieldName::Name => "name"@,
            FieldName::Path => "path"@,
            FieldName::Content => "content"@,
            FieldName::Size => "size"@,
            FieldName::Modified => "modified"@,
            FieldName::Created => "created"@,
            FieldName::MimeType => "mime_type"@,
            FieldName::Extension => "extension"@,
        }
    }

    /// Whether the index keeps the field's text for retrieval: every field
    /// but the content.
    pub open spec fn is_stored(self) -> bool {
        self != FieldName::Content
    }

    /// The boost of the field in a query: the name counts three times, the
    /// path twice, every other field once.
    pub open spec fn boost_of(self) -> u8 {
        match self {
            FieldName::Name => 3,
            FieldName::Path => 2,
            _ => 1,
        }
    }

    /// The name of the field in the schema.
    pub fn key(&self) -> (name: &'static str)
        ensures
            name@ == self.key_text(),
    {
        match self {
            FieldName::Name => "name",
            FieldName::Path => "path",
            FieldName::Content => "content",
            FieldName::Size => "size",
            FieldName::Modified => "modified",
            FieldName::Created => "created",
            FieldName::MimeType => "mime_type",
            FieldName::Extension => "extension",
        }
    }

    /// Whether the index keeps the field's text for retrieval.
    pub fn stored(&self) -> (s: bool)
        ensures
            s == self.is_stored(),
    {
        match self {
            FieldName::Content => false,
            _ => true,
        }
    }

    /// The boost of the field in a query.
    pub fn boost(&self) -> (b: u8)
        ensures
            b == self.boost_of(),
    {
        match self {
            FieldName::Name => 3,
            FieldName::Path => 2,
            _ => 1,
        }
    }
}

/// The fields of the schema, in the order in which the schema holds them.
pub open spec fn schema_order() -> Seq<FieldName> {
    seq![
        FieldName::Name,
        FieldName::Path,
        FieldName::Content,
        FieldName::Size,
        FieldName::Modified,
        FieldName::Created,
        FieldName::MimeType,
        FieldName::Extension,
    ]
}

/// The fields that a query searches where it names none.
pub open spec fn query_fields() -> Seq<FieldName> {
    seq![
        FieldName::Name,
        FieldName::Path,
        FieldName::Content,
        FieldName::Extension,
        FieldName::MimeType,
    ]
}

/// The fields that a query searches where it names none.
pub fn default_query_fields() -> (fields: Vec<FieldName>)
    ensures
        fields@ == query_fields(),
{
    let mut fields: Vec<FieldName> = Vec::new();
    fields.push(FieldName::Name);
    fields.push(FieldName::Path);
    fields.push(FieldName::Content);
    fields.push(FieldName::Extension);
    fields.push(FieldName::MimeType);
    assert(fields@ =~= query_fields());
    fields
}

/// The first `n` fields of the schema: the name of each, and whether its
/// text is stored.
pub open spec fn schema_prefix(n: nat) -> Seq<(Seq<char>, bool)>
    recommends
        n <= 8,
{
    Seq::new(n, |i: int| (schema_order()[i].key_text(), schema_order()[i].is_stored()))
}

/// No two fields of the schema have one name.
pub proof fn lemma_keys_differ(a: FieldName, b: FieldName)
    ensures
        a.key_text() == b.key_text() <==> a == b,
{
    reveal_strlit("name");
    reveal_strlit("path");
    reveal_strlit("content");
    reveal_strlit("size");
    reveal_strlit("modified");
    reveal_strlit("created");
    reveal_strlit("mime_type");
    reveal_strlit("extension");
    if a != b && a.key_text() == b.key_text() {
        assert(a.key_text().len() == b.key_text().len());
        assert(a.key_text()[0] == b.key_text()[0]);
        assert(a.key_text()[1] == b.key_text()[1]);
    }
}

/// Every name of the schema is one that the index library takes: it is not
/// empty and does not begin with `-`.
pub proof fn lemma_keys_are_field_names(field: FieldName)
    ensures
        is_field_name(field.key_text()),
{
    reveal_strlit("name");
    reveal_strlit("path");
    reveal_strlit("content");
    reveal_strlit("size");
    reveal_strlit("modified");
    reveal_strlit("created");
    reveal_strlit("mime_type");
    reveal_strlit("extension");
}

/// The library's own schema holds a field of every name that the manager
/// looks up, so it always resolves.
pub proof fn lemma_schema_has_every_field()
    ensures
        has_every_field(schema_prefix(8)),
{
    assert forall|field: FieldName| !name_is_free(
        schema_prefix(8),
        #[trigger] field.key_text(),
    ) by {
        let at: int = match field {
            FieldName::Name => 0,
            FieldName::Path => 1,
            FieldName::Content => 2,
            FieldName::Size => 3,
            FieldName::Modified => 4,
            FieldName::Created => 5,
            FieldName::MimeType => 6,
            FieldName::Extension => 7,
        };
        assert(schema_order()[at] == field);
        assert(schema_prefix(8)[at].0 == field.key_text());
    }
}

/// Adds the field at place `at` of the schema's order to the builder.
fn add_schema_field(builder: &mut tantivy::schema::SchemaBuilder, field: FieldName, at: usize)
    requires
        at < 8,
        field == schema_order()[at as int],
        builder_fields(*old(builder)) == schema_prefix(at as nat),
    ensures
        builder_fields(*final(builder)) == schema_prefix((at + 1) as nat),
{
    proof {
        lemma_keys_are_field_names(field);
        assert forall|i: int| 0 <= i < at implies (#[trigger] schema_prefix(at as nat)[i]).0
            != field.key_text() by {
            lemma_keys_differ(schema_order()[i], field);
        }
        assert(schema_prefix((at + 1) as nat) =~= schema_prefix(at as nat).push(
            (field.key_text(), field.is_stored()),
        ));
    }
    if field.stored() {
        add_stored_text_field(builder, field.key());
    } else {
        add_indexed_text_field(builder, field.key());
    }
}

/// The schema of the index: eight text fields, all tokenized, and all but
/// the content stored.
pub fn index_schema() -> (schema: tantivy::schema::Schema)
    ensures
        schema_fields(schema) == schema_prefix(8),
{
    let mut builder = new_schema_builder();
    assert(builder_fields(builder) =~= schema_prefix(0));
    add_schema_field(&mut builder, FieldName::Name, 0);
    add_schema_field(&mut builder, FieldName::Path, 1);
    add_schema_field(&mut builder, FieldName::Content, 2);
    add_schema_field(&mut builder, FieldName::Size, 3);
    add_schema_field(&mut builder, FieldName::Modified, 4);
    add_schema_field(&mut builder, FieldName::Created, 5);
    add_schema_field(&mut builder, FieldName::MimeType, 6);
    add_schema_field(&mut builder, FieldName::Extension, 7);
    build_schema(builder)
}

/// The handles of the schema's fields in an index: of each field its id,
/// which is its place in the index's schema.
pub struct SchemaFields {
    pub name: u32,
    pub path: u32,
    pub content: u32,
    pub size: u32,
    pub modified: u32,
    pub created: u32,
    pub mime_type: u32,
    pub extension: u32,
}

/// The fields `fields` of a schema hold a field of every name of the
/// library's schema.
pub open spec fn has_every_field(fields: Seq<(Seq<char>, bool)>) -> bool {
    forall|field: FieldName| !name_is_free(fields, #[trigger] field.key_text())
}

impl SchemaFields {
    /// The handle of a field.
    pub open spec fn handle_of(&self, field: FieldName) -> u32 {
        match field {
            FieldName::Name => self.name,
            FieldName::Path => self.path,
            FieldName::Content => self.content,
            FieldName::Size => self.size,
            FieldName::Modified => self.modified,
            FieldName::Created => self.created,
            FieldName::MimeType => self.mime_type,
            FieldName::Extension => self.extension,
        }
    }

    /// Every handle is the place of the field of that name among the fields
    /// `fields` of a schema.
    pub open spec fn points_into(&self, fields: Seq<(Seq<char>, bool)>) -> bool {
        forall|field: FieldName|
            (#[trigger] self.handle_of(field)) < fields.len() && fields[self.handle_of(
                field,
            ) as int].0 == field.key_text()
    }

    /// The handle of a field.
    pub fn handle(&self, field: FieldName) -> (h: u32)
        ensures
            h == self.handle_of(field),
    {
        match field {
            FieldName::Name => self.name,
            FieldName::Path => self.path,
            FieldName::Content => self.content,
            FieldName::Size => self.size,
            FieldName::Modified => self.modified,
            FieldName::Created => self.created,
            FieldName::MimeType => self.mime_type,
            FieldName::Extension => self.extension,
        }
    }

    /// Looks the eight fields up in a schema. Where the schema holds a
    /// field of each of the eight names, the handles are the places of
    /// these fields; a schema that lacks one of them does not match.
    pub fn resolve(schema: &tantivy::schema::Schema) -> (r: Result<SchemaFields, IndexError>)
        ensures
            r is Ok <==> has_every_field(schema_fields(*schema)),
            r matches Ok(handles) ==> handles.points_into(schema_fields(*schema)),
            r is Err ==> r == Err::<SchemaFields, IndexError>(IndexError::SchemaMismatch),
    {
        let name = resolve_field(schema, FieldName::Name)?;
        let path = resolve_field(schema, FieldName::Path)?;
        let content = resolve_field(schema, FieldName::Content)?;
        let size = resolve_field(schema, FieldName::Size)?;
        let modified = resolve_field(schema, FieldName::Modified)?;
        let created = resolve_field(schema, FieldName::Created)?;
        let mime_type = resolve_field(schema, FieldName::MimeType)?;
        let extension = resolve_field(schema, FieldName::Extension)?;
        let handles =
            SchemaFields { name, path, content, size, modified, created, mime_type, extension };
        proof {
            let fields = schema_fields(*schema);
            assert forall|field: FieldName| !name_is_free(fields, #[trigger] field.key_text()) by {
                assert(handles.handle_of(field) < fields.len());
                assert(fields[handles.handle_of(field) as int].0 == field.key_text());
            }
        }
        Ok(handles)
    }
}

/// Looks one field up in a schema: its place there, or `SchemaMismatch`
/// where the schema has no field of its name.
fn resolve_field(schema: &tantivy::schema::Schema, field: FieldName) -> (r: Result<u32, IndexError>)
    ensures
        r is Ok <==> !name_is_free(schema_fields(*schema), field.key_text()),
        r matches Ok(id) ==> id < schema_fields(*schema).len() && schema_fields(
            *schema,
        )[id as int].0 == field.key_text(),
        r is Err ==> r == Err::<u32, IndexError>(IndexError::SchemaMismatch),
{
    match get_field(schema, field.key()) {
        Ok(handle) => Ok(handle),
        Err(_) => Err(IndexError::SchemaMismatch),
    }
}

/// The values of a document as the index library takes them: every value
/// under the handle of its field, as text, in order.
pub open spec fn index_values(fields: SchemaFields, doc: Seq<(FieldName, Seq<char>)>) -> Seq<
    (u32, Option<Seq<char>>),
> {
    Seq::new(doc.len(), |i: int| (fields.handle_of(doc[i].0), Some(doc[i].1)))
}

/// The stored text of one field among the values of a fetched document, as
/// a value of a document of the library: none where the field has no
/// value, or its first value is no text.
pub open spec fn stored_value(
    fields: SchemaFields,
    values: Seq<(u32, Option<Seq<char>>)>,
    field: FieldName,
) -> Seq<(FieldName, Seq<char>)> {
    match first_text(values, fields.handle_of(field)) {
        Some(text) => seq![(field, text)],
        None => Seq::empty(),
    }
}

/// What a hit is made of: the stored path, name, size and media type of a
/// fetched document, in this order, each where the document holds it.
pub open spec fn stored_view(fields: SchemaFields, values: Seq<(u32, Option<Seq<char>>)>) -> Seq<
    (FieldName, Seq<char>),
> {
    stored_value(fields, values, FieldName::Path) + stored_value(fields, values, FieldName::Name)
        + stored_value(fields, values, FieldName::Size) + stored_value(
        fields,
        values,
        FieldName::MimeType,
    )
}

/// `doc` is what a hit is made of, for some fetched document.
pub open spec fn is_stored_view(fields: SchemaFields, doc: Seq<(FieldName, Seq<char>)>) -> bool {
    exists|values: Seq<(u32, Option<Seq<char>>)>| doc == #[trigger] stored_view(fields, values)
}

/// `hit` shows the stored path, name, size and media type of some fetched
/// document.
pub open spec fn is_hit_of_stored(fields: SchemaFields, hit: SearchDoc) -> bool {
    exists|values: Seq<(u32, Option<Seq<char>>)>|
        hit.shows(#[trigger] stored_view(fields, values))
}

/// The handles of the first `n` of the fields that a query searches where
/// it names none.
pub open spec fn default_handles(fields: SchemaFields, n: nat) -> Seq<u32>
    recommends
        n <= 5,
{
    Seq::new(n, |i: int| fields.handle_of(query_fields()[i]))
}

/// The boosts of the first `n` of the fields that a query searches where it
/// names none, each under the handle of its field.
pub open spec fn default_boosts(fields: SchemaFields, n: nat) -> Map<u32, u8>
    recommends
        n <= 5,
    decreases n,
{
    if n == 0 {
        Map::empty()
    } else {
        default_boosts(fields, (n - 1) as nat).insert(
            fields.handle_of(query_fields()[n - 1]),
            query_fields()[n - 1].boost_of(),
        )
    }
}

/// The line that `get_stats` reports of an index of `n` documents.
pub open spec fn stats_text(n: nat) -> Seq<char> {
    "Index contains "@ + decimal(n) + " documents"@
}

/// The line that tells how many documents an index holds.
pub fn stats_line(n: u64) -> (line: String)
    ensures
        line@ == stats_text(n as nat),
{
    let mut line = String::from_str("Index contains ");
    push_decimal(&mut line, n);
    line.append(" documents");
    line
}

/// What became of the documents that a manager received.
pub struct Accounting {
    /// Documents handed to the manager.
    pub received: nat,
    /// Documents appended and not yet published by a commit.
    pub pending: nat,
    /// Documents published by successful commits.
    pub committed: nat,
    /// Documents that the writer refused.
    pub rejected: nat,
    /// Documents left out because an earlier one of their batch was refused.
    pub abandoned: nat,
}

impl Accounting {
    /// Every received document is pending, committed, rejected or
    /// abandoned, and is so once.
    pub open spec fn balanced(self) -> bool {
        self.received == self.pending + self.committed + self.rejected + self.abandoned
    }

    /// Nothing was received.
    pub open spec fn zero() -> Accounting {
        Accounting { received: 0, pending: 0, committed: 0, rejected: 0, abandoned: 0 }
    }

    /// The account after one more document was appended.
    pub open spec fn appended(self) -> Accounting {
        Accounting { received: self.received + 1, pending: self.pending + 1, ..self }
    }

    /// The account after `n` more documents were appended.
    pub open spec fn after_appends(self, n: nat) -> Accounting {
        Accounting { received: self.received + n, pending: self.pending + n, ..self }
    }

    /// The account after the writer refused one more document.
    pub open spec fn refused(self) -> Accounting {
        Accounting { received: self.received + 1, rejected: self.rejected + 1, ..self }
    }

    /// The account after `n` more documents were left out.
    pub open spec fn left_out(self, n: nat) -> Accounting {
        Accounting { received: self.received + n, abandoned: self.abandoned + n, ..self }
    }

    /// The account after a successful commit.
    pub open spec fn published(self) -> Accounting {
        Accounting { pending: 0, committed: self.committed + self.pending, ..self }
    }
}

/// Where an attempt at a batch of `len` documents begins, of which `done`
/// are appended already.
pub open spec fn batch_start(done: usize, len: nat) -> nat {
    if done > len {
        len
    } else {
        done as nat
    }
}

/// A failed batch is retried whole and nothing of it is lost: where the
/// writer refuses a document after `k` were appended, and the next attempt
/// appends the rest and commits, the commit publishes every document of
/// the batch, and what was pending before it.
pub proof fn lemma_retry_commits_whole_batch(account: Accounting, len: nat, k: nat)
    requires
        account.balanced(),
        k < len,
    ensures
        account.after_appends(k).refused().after_appends((len - k) as nat).published().committed
            == account.committed + account.pending + len,
        account.after_appends(k).refused().after_appends((len - k) as nat).published().pending
            == 0,
        account.after_appends(k).refused().after_appends((len - k) as nat).published().balanced(),
{
}

/// How one step of the plain directory indexer ended.
#[derive(Clone, Copy, Debug, PartialEq, Eq, Structural)]
pub enum FileStep {
    /// The file is in the index.
    Indexed,
    /// The writer refused the file; the run goes on.
    Skipped,
    /// The run is paused: nothing was done.
    Paused,
    /// The run was cancelled: nothing was done.
    Cancelled,
}

/// The status of the plain directory indexer, as its caller sees it.
#[derive(Clone, Debug)]
pub struct IndexProgress {
    pub total_files: usize,
    pub processed_files: usize,
    pub current_file: String,
    pub state: String,
    pub is_complete: bool,
}

/// The flags and counts of a run of the plain directory indexer.
pub struct RunControl {
    pub is_paused: bool,
    pub is_cancelled: bool,
    pub is_complete: bool,
    pub total_files: usize,
    pub processed_files: usize,
    pub current_file: String,
}

impl RunControl {
    /// The word for the state of a run: completion comes before
    /// cancellation, cancellation before a pause.
    pub open spec fn status_text(&self) -> Seq<char> {
        if self.is_complete {
            "Completed"@
        } else if self.is_cancelled {
            "Cancelled"@
        } else if self.is_paused {
            "Paused"@
        } else {
            "Running"@
        }
    }
}

/// The manager of one index: it owns the writer.
pub struct IndexManager {
    index: tantivy::Index,
    writer: tantivy::IndexWriter,
    fields: SchemaFields,
    buffer_size: usize,
    uncommitted: usize,
    account: Ghost<Accounting>,
    control: RunControl,
}

impl IndexManager {
    /// What became of the documents received so far.
    pub closed spec fn account(&self) -> Accounting {
        self.account@
    }

    /// The flags and counts of the plain directory indexer.
    pub closed spec fn control(&self) -> RunControl {
        self.control
    }

    /// The memory budget of the writer.
    pub closed spec fn budget(&self) -> nat {
        self.buffer_size as nat
    }

    /// The handles of the schema's fields in the manager's index.
    pub closed spec fn handles(&self) -> SchemaFields {
        self.fields
    }

    /// The fields of the schema of the manager's index.
    pub closed spec fn schema(&self) -> Seq<(Seq<char>, bool)> {
        index_fields(self.index)
    }

    /// The account is balanced, the manager knows whether a commit is due,
    /// and its handles are the places of the fields in its index.
    pub closed spec fn wf(&self) -> bool {
        &&& self.account@.balanced()
        &&& self.uncommitted <= COMMIT_BATCH_SIZE
        &&& self.uncommitted as nat == if self.account@.pending >= COMMIT_BATCH_SIZE {
            COMMIT_BATCH_SIZE as nat
        } else {
            self.account@.pending
        }
        &&& self.control.processed_files <= self.control.total_files
        &&& self.fields.points_into(index_fields(self.index))
    }

    /// The account of a manager is balanced: every document that it
    /// received is pending, committed, rejected or abandoned, once.
    pub proof fn lemma_account_is_balanced(&self)
        requires
            self.wf(),
        ensures
            self.account().balanced(),
            self.handles().points_into(self.schema()),
    {
    }

    /// A manager that has received nothing and runs nothing.
    pub open spec fn is_new(&self) -> bool {
        &&& self.wf()
        &&& self.account() == Accounting::zero()
        &&& !self.control().is_paused
        &&& !self.control().is_cancelled
        &&& !self.control().is_complete
        &&& self.control().total_files == 0
        &&& self.control().processed_files == 0
    }

    /// A manager of a new index in memory, with the small memory budget.
    /// It fails only where no writer can be had.
    pub fn new() -> (r: Result<IndexManager, IndexError>)
        ensures
            r matches Ok(m) ==> m.is_new() && m.budget() == SMALL_INDEX_BUFFER_SIZE && m.schema()
                == schema_prefix(8),
            r matches Err(e) ==> e == IndexError::WriterUnavailable,
    {
        proof {
            lemma_schema_has_every_field();
        }
        Self::open(create_in_ram(index_schema()), SMALL_INDEX_BUFFER_SIZE)
    }

    /// A manager of `index`, whose writer has the memory budget
    /// `buffer_size`. An index whose schema lacks a field of one of the
    /// eight names gives `SchemaMismatch`, and no other index does; where
    /// no writer can be had the answer is `WriterUnavailable`.
    pub fn open(index: tantivy::Index, buffer_size: usize) -> (r: Result<IndexManager, IndexError>)
        ensures
            (r is Err && r->Err_0 == IndexError::SchemaMismatch) <==> !has_every_field(
                index_fields(index),
            ),
            r matches Ok(m) ==> m.is_new() && m.budget() == buffer_size && m.schema()
                == index_fields(index),
            r matches Err(e) ==> e == IndexError::SchemaMismatch || e
                == IndexError::WriterUnavailable,
    {
        let schema = schema_of(&index);
        let fields = match SchemaFields::resolve(&schema) {
            Ok(fields) => fields,
            Err(e) => {
                return Err(e);
            },
        };
        let writer = match open_writer(&index, buffer_size) {
            Ok(writer) => writer,
            Err(_) => {
                return Err(IndexError::WriterUnavailable);
            },
        };
        Ok(
            IndexManager {
                index,
                writer,
                fields,
                buffer_size,
                uncommitted: 0,
                account: Ghost(Accounting::zero()),
                control: RunControl {
                    is_paused: false,
                    is_cancelled: false,
                    is_complete: false,
                    total_files: 0,
                    processed_files: 0,
                    current_file: String::new(),
                },
            },
        )
    }

    /// Whether a commit is due: `COMMIT_BATCH_SIZE` documents or more are
    /// pending.
    pub fn commit_is_due(&self) -> (due: bool)
        requires
            self.wf(),
        ensures
            due == is_commit_due(self.account().pending),
    {
        self.uncommitted >= COMMIT_BATCH_SIZE
    }

    /// The document as the index library takes it: every value under the
    /// handle of its field, in order.
    fn to_index_document(&self, doc: &FileDocument) -> (out: tantivy::Document)
        ensures
            document_values(out) == index_values(self.fields, doc@),
    {
        let mut out = new_index_document();
        let mut i: usize = 0;
        assert(document_values(out) =~= index_values(self.fields, doc@.take(0)));
        while i < doc.fields.len()
            invariant
                i <= doc.fields.len(),
                document_values(out) == index_values(self.fields, doc@.take(i as int)),
            decreases doc.fields.len() - i,
        {
            let value = &doc.fields[i];
            document_add_text(&mut out, self.fields.handle(value.field), value.text.as_str());
            assert(index_values(self.fields, doc@.take(i + 1)) =~= index_values(
                self.fields,
                doc@.take(i as int),
            ).push((self.fields.handle_of(value.field), Some(value.text@))));
            i += 1;
        }
        assert(doc@.take(i as int) =~= doc@);
        out
    }

    /// Hands one document to the writer. The writer takes it, and it is
    /// pending, or refuses it, and it is rejected with
    /// `WriteAppendFailure`. Nothing is committed.
    pub fn append(&mut self, doc: &FileDocument) -> (r: Result<(), IndexError>)
        requires
            old(self).wf(),
        ensures
            final(self).wf(),
            final(self).control() == old(self).control(),
            final(self).budget() == old(self).budget(),
            final(self).handles() == old(self).handles(),
            final(self).schema() == old(self).schema(),
            match r {
                Ok(_) => final(self).account() == old(self).account().appended(),
                Err(e) => e == IndexError::WriteAppendFailure && final(self).account() == old(
                    self,
                ).account().refused(),
            },
    {
        let out = self.to_index_document(doc);
        match writer_add(&mut self.writer, out) {
            Ok(_) => {
                if self.uncommitted < COMMIT_BATCH_SIZE {
                    self.uncommitted = self.uncommitted + 1;
                }
                self.account = Ghost(self.account@.appended());
                Ok(())
            },
            Err(_) => {
                self.account = Ghost(self.account@.refused());
                Err(IndexError::WriteAppendFailure)
            },
        }
    }

    /// Commits what is pending. After a success nothing is pending and what
    /// was pending is committed; after `CommitFailure` the account is as it
    /// was.
    pub fn commit(&mut self) -> (r: Result<(), IndexError>)
        requires
            old(self).wf(),
        ensures
            final(self).wf(),
            final(self).control() == old(self).control(),
            final(self).budget() == old(self).budget(),
            final(self).handles() == old(self).handles(),
            final(self).schema() == old(self).schema(),
            match r {
                Ok(_) => final(self).account() == old(self).account().published(),
                Err(e) => e == IndexError::CommitFailure && final(self).account() == old(
                    self,
                ).account(),
            },
    {
        match writer_commit(&mut self.writer) {
            Ok(_) => {
                self.uncommitted = 0;
                self.account = Ghost(self.account@.published());
                Ok(())
            },
            Err(_) => Err(IndexError::CommitFailure),
        }
    }

    /// One attempt to write a batch: the documents are appended in order;
    /// the first that the writer refuses ends the attempt, and the rest of
    /// the batch is left out; where all were taken, a commit follows.
    pub fn write_batch(&mut self, batch: Vec<FileDocument>) -> (outcome: AttemptOutcome)
        requires
            old(self).wf(),
        ensures
            final(self).wf(),
            final(self).control() == old(self).control(),
            final(self).budget() == old(self).budget(),
            final(self).account().received == old(self).account().received + batch@.len(),
            match outcome {
                AttemptOutcome::Committed => {
                    &&& final(self).account().pending == 0
                    &&& final(self).account().committed == old(self).account().committed + old(
                        self,
                    ).account().pending + batch@.len()
                    &&& final(self).account().rejected == old(self).account().rejected
                    &&& final(self).account().abandoned == old(self).account().abandoned
                },
                AttemptOutcome::CommitFailed => {
                    &&& final(self).account().pending == old(self).account().pending
                        + batch@.len()
                    &&& final(self).account().committed == old(self).account().committed
                    &&& final(self).account().rejected == old(self).account().rejected
                    &&& final(self).account().abandoned == old(self).account().abandoned
                },
                AttemptOutcome::AppendFailed => {
                    &&& final(self).account().committed == old(self).account().committed
                    &&& final(self).account().rejected == old(self).account().rejected + 1
                    &&& final(self).account().pending >= old(self).account().pending
                    &&& final(self).account().abandoned >= old(self).account().abandoned
                },
            },
    {
        let mut i: usize = 0;
        while i < batch.len()
            invariant
                i <= batch.len(),
                self.wf(),
                self.control() == old(self).control(),
                self.budget() == old(self).budget(),
                self.account() == (Accounting {
                    received: (old(self).account().received + i) as nat,
                    pending: (old(self).account().pending + i) as nat,
                    ..old(self).account()
                }),
            decreases batch.len() - i,
        {
            match self.append(&batch[i]) {
                Ok(_) => {},
                Err(_) => {
                    let ghost rest = (batch.len() - i - 1) as nat;
                    self.account = Ghost(self.account@.left_out(rest));
                    return AttemptOutcome::AppendFailed;
                },
            }
            i += 1;
        }
        match self.commit() {
            Ok(_) => AttemptOutcome::Committed,
            Err(_) => AttemptOutcome::CommitFailed,
        }
    }

    /// One attempt at a batch that is kept for the next attempt. `done`
    /// counts the documents of the batch that the writer holds already, so
    /// that no attempt appends a document twice and none is left out: the
    /// attempt goes on with the first document not yet appended; a document
    /// that the writer refuses ends the attempt and is the first of the
    /// next one; where every document is appended, a commit follows. A
    /// count beyond the batch counts as the whole batch.
    pub fn attempt_batch(&mut self, batch: &Vec<FileDocument>, done: &mut usize) -> (outcome:
        AttemptOutcome)
        requires
            old(self).wf(),
        ensures
            final(self).wf(),
            final(self).control() == old(self).control(),
            final(self).budget() == old(self).budget(),
            final(self).handles() == old(self).handles(),
            final(self).schema() == old(self).schema(),
            batch_start(*old(done), batch@.len()) <= *final(done) <= batch@.len(),
            match outcome {
                AttemptOutcome::Committed => {
                    &&& *final(done) == batch@.len()
                    &&& final(self).account() == old(self).account().after_appends(
                        (batch@.len() - batch_start(*old(done), batch@.len())) as nat,
                    ).published()
                },
                AttemptOutcome::CommitFailed => {
                    &&& *final(done) == batch@.len()
                    &&& final(self).account() == old(self).account().after_appends(
                        (batch@.len() - batch_start(*old(done), batch@.len())) as nat,
                    )
                },
                AttemptOutcome::AppendFailed => {
                    &&& *final(done) < batch@.len()
                    &&& final(self).account() == old(self).account().after_appends(
                        (*final(done) - batch_start(*old(done), batch@.len())) as nat,
                    ).refused()
                },
            },
    {
        let start: usize = if *done > batch.len() {
            batch.len()
        } else {
            *done
        };
        let mut i: usize = start;
        *done = start;
        while i < batch.len()
            invariant
                start <= i <= batch.len(),
                start == batch_start(*old(done), batch@.len()),
                *done == i,
                self.wf(),
                self.control() == old(self).control(),
                self.budget() == old(self).budget(),
                self.handles() == old(self).handles(),
                self.schema() == old(self).schema(),
                self.account() == old(self).account().after_appends((i - start) as nat),
            decreases batch.len() - i,
        {
            match self.append(&batch[i]) {
                Ok(_) => {},
                Err(_) => {
                    return AttemptOutcome::AppendFailed;
                },
            }
            i += 1;
            *done = i;
        }
        match self.commit() {
            Ok(_) => AttemptOutcome::Committed,
            Err(_) => AttemptOutcome::CommitFailed,
        }
    }

    /// Indexes one file record: its document is appended, and once
    /// `COMMIT_BATCH_SIZE` documents are pending they are committed.
    pub fn add_document(&mut self, info: &FileInfo) -> (r: Result<(), IndexError>)
        requires
            old(self).wf(),
        ensures
            final(self).wf(),
            final(self).control() == old(self).control(),
            match r {
                Ok(_) => if is_commit_due(old(self).account().pending + 1) {
                    final(self).account() == old(self).account().appended().published()
                } else {
                    final(self).account() == old(self).account().appended()
                },
                Err(e) => if e == IndexError::WriteAppendFailure {
                    final(self).account() == old(self).account().refused()
                } else {
                    &&& e == IndexError::CommitFailure
                    &&& is_commit_due(old(self).account().pending + 1)
                    &&& final(self).account() == old(self).account().appended()
                },
            },
    {
        let doc = prepare_document(info);
        match self.append(&doc) {
            Ok(_) => {},
            Err(e) => {
                return Err(e);
            },
        }
        if self.commit_is_due() {
            self.commit()
        } else {
            Ok(())
        }
    }

    /// Waits until the background merges have ended, and gives the index
    /// back for a fresh writer. The manager is used up.
    pub fn wait_for_merges(self) -> (r: (tantivy::Index, Result<(), IndexError>))
        ensures
            r.1 is Err ==> r.1 == Err::<(), IndexError>(IndexError::MergeFailure),
    {
        let index = self.index;
        match writer_wait_merges(self.writer) {
            Ok(_) => (index, Ok(())),
            Err(_) => (index, Err(IndexError::MergeFailure)),
        }
    }

    /// The line that tells how many documents a reader opened now sees.
    pub fn get_stats(&self) -> (r: Result<String, IndexError>)
        ensures
            match r {
                Ok(line) => exists|n: u64| line@ == stats_text(n as nat),
                Err(e) => e == IndexError::NoIndex,
            },
    {
        let reader = match open_reader(&self.index) {
            Ok(reader) => reader,
            Err(_) => {
                return Err(IndexError::NoIndex);
            },
        };
        let searcher = reader_searcher(&reader);
        let n = searcher_num_docs(&searcher);
        Ok(stats_line(n))
    }

    /// The stored fields of the documents that match `query` best, at most
    /// `SEARCH_LIMIT` of them, by falling relevance. A query that cannot
    /// be parsed gives `BadQuery`; where no reader can be opened the answer
    /// is `NoIndex`.
    pub fn search_stored(&self, query: &str) -> (r: Result<Vec<FileDocument>, IndexError>)
        requires
            self.wf(),
        ensures
            match r {
                Ok(docs) => docs@.len() <= SEARCH_LIMIT && forall|i: int|
                    0 <= i < docs@.len() ==> is_stored_view(self.handles(), (#[trigger] docs@[i])@),
                Err(e) => e == IndexError::NoIndex || e == IndexError::BadQuery || e
                    == IndexError::SearchFailure,
            },
    {
        let reader = match open_reader(&self.index) {
            Ok(reader) => reader,
            Err(_) => {
                return Err(IndexError::NoIndex);
            },
        };
        let searcher = reader_searcher(&reader);
        let parser = self.query_parser();
        let found = match run_query(&searcher, &parser, query, SEARCH_LIMIT) {
            Err(_) => {
                return Err(IndexError::BadQuery);
            },
            Ok(Err(_)) => {
                return Err(IndexError::SearchFailure);
            },
            Ok(Ok(found)) => found,
        };
        let mut docs: Vec<FileDocument> = Vec::new();
        let mut i: usize = 0;
        while i < found.len()
            invariant
                i <= found.len(),
                docs@.len() == i,
                found@.len() <= SEARCH_LIMIT,
                forall|k: int|
                    0 <= k < found@.len() ==> searcher_docs(searcher).contains(#[trigger] found@[k]),
                forall|k: int|
                    0 <= k < docs@.len() ==> is_stored_view(self.fields, (#[trigger] docs@[k])@),
            decreases found.len() - i,
        {
            let stored = match fetch_doc(&searcher, found[i]) {
                Ok(stored) => stored,
                Err(_) => {
                    return Err(IndexError::SearchFailure);
                },
            };
            let doc = self.stored_fields(&stored);
            assert(is_stored_view(self.fields, doc@)) by {
                assert(doc@ == stored_view(self.fields, document_values(stored)));
            }
            docs.push(doc);
            i += 1;
        }
        Ok(docs)
    }

    /// The parser of queries: it searches the fields of `query_fields`
    /// where a query names none, each with its boost.
    fn query_parser(&self) -> (parser: tantivy::query::QueryParser)
        requires
            self.wf(),
        ensures
            parser_fields(parser) == index_fields(self.index),
            parser_defaults(parser) == default_handles(self.fields, 5),
            parser_boosts(parser) == default_boosts(self.fields, 5),
            ids_in_range(parser_defaults(parser), parser_fields(parser)),
    {
        let fields = default_query_fields();
        let mut handles: Vec<u32> = Vec::new();
        let mut i: usize = 0;
        while i < fields.len()
            invariant
                i <= fields.len(),
                fields@ == query_fields(),
                handles@ =~= default_handles(self.fields, i as nat),
            decreases fields.len() - i,
        {
            handles.push(self.fields.handle(fields[i]));
            i += 1;
        }
        let mut parser = new_query_parser(&self.index, handles);
        let mut j: usize = 0;
        while j < fields.len()
            invariant
                j <= fields.len(),
                fields@ == query_fields(),
                parser_fields(parser) == index_fields(self.index),
                parser_defaults(parser) == default_handles(self.fields, 5),
                parser_boosts(parser) == default_boosts(self.fields, j as nat),
            decreases fields.len() - j,
        {
            parser_set_boost(&mut parser, self.fields.handle(fields[j]), fields[j].boost());
            j += 1;
        }
        assert forall|k: int| 0 <= k < 5 implies (#[trigger] default_handles(self.fields, 5)[k])
            < index_fields(self.index).len() by {
            assert(self.fields.handle_of(query_fields()[k]) < index_fields(self.index).len());
        }
        parser
    }

    /// The stored text of one field of a fetched document, added to `doc`
    /// where the document holds it.
    fn add_stored(&self, doc: &mut FileDocument, stored: &tantivy::Document, field: FieldName)
        ensures
            final(doc)@ == old(doc)@ + stored_value(self.fields, document_values(*stored), field),
    {
        match document_first_text(stored, self.fields.handle(field)) {
            Some(text) => {
                doc.add_text(field, text);
                assert(doc@ =~= old(doc)@ + seq![(field, text@)]);
            },
            None => {
                assert(doc@ =~= old(doc)@ + Seq::<(FieldName, Seq<char>)>::empty());
            },
        }
    }

    /// The stored fields of a fetched document that a hit is made of: path,
    /// name, size and media type, each where the document holds it.
    fn stored_fields(&self, stored: &tantivy::Document) -> (doc: FileDocument)
        ensures
            doc@ == stored_view(self.fields, document_values(*stored)),
    {
        let mut doc = FileDocument::new();
        self.add_stored(&mut doc, stored, FieldName::Path);
        self.add_stored(&mut doc, stored, FieldName::Name);
        self.add_stored(&mut doc, stored, FieldName::Size);
        self.add_stored(&mut doc, stored, FieldName::MimeType);
        assert(doc@ =~= stored_view(self.fields, document_values(*stored)));
        doc
    }

    /// The hits of `query`: at most `SEARCH_LIMIT`, by falling relevance,
    /// each made of the stored fields of its document. A query that matches
    /// nothing gives the empty list.
    pub fn search(&self, query: &str) -> (r: Result<Vec<SearchDoc>, IndexError>)
        requires
            self.wf(),
        ensures
            match r {
                Ok(hits) => hits@.len() <= SEARCH_LIMIT && forall|i: int|
                    0 <= i < hits@.len() ==> (#[trigger] hits@[i]).wf() && is_hit_of_stored(
                        self.handles(),
                        hits@[i],
                    ),
                Err(e) => e == IndexError::NoIndex || e == IndexError::BadQuery || e
                    == IndexError::SearchFailure || e == IndexError::MissingPath || e
                    == IndexError::MissingName,
            },
    {
        let stored = match self.search_stored(query) {
            Ok(stored) => stored,
            Err(e) => {
                return Err(e);
            },
        };
        let r = project_hits(&stored);
        proof {
            if r is Ok {
                let hits = r->Ok_0;
                assert forall|i: int| 0 <= i < hits@.len() implies is_hit_of_stored(
                    self.fields,
                    #[trigger] hits@[i],
                ) by {
                    assert(is_stored_view(self.fields, stored@[i]@));
                    let values = choose|values: Seq<(u32, Option<Seq<char>>)>|
                        stored@[i]@ == #[trigger] stored_view(self.fields, values);
                    assert(hits@[i].shows(stored_view(self.fields, values)));
                }
            }
        }
        r
    }
}

/// The line of a run that begins.
pub open spec fn starting_text(total: nat) -> Seq<char> {
    "Starting to index "@ + decimal(total) + " files..."@
}

/// The line of a run that has ended.
pub open spec fn completed_text(total: nat) -> Seq<char> {
    "Completed indexing "@ + decimal(total) + " files"@
}

impl IndexManager {
    /// Pauses the run of the plain directory indexer.
    pub fn pause(&mut self)
        requires
            old(self).wf(),
        ensures
            final(self).wf(),
            final(self).account() == old(self).account(),
            final(self).control() == (RunControl { is_paused: true, ..old(self).control() }),
    {
        self.control.is_paused = true;
    }

    /// Lets a paused run go on.
    pub fn resume(&mut self)
        requires
            old(self).wf(),
        ensures
            final(self).wf(),
            final(self).account() == old(self).account(),
            final(self).control() == (RunControl { is_paused: false, ..old(self).control() }),
    {
        self.control.is_paused = false;
    }

    /// Cancels the run.
    pub fn cancel(&mut self)
        requires
            old(self).wf(),
        ensures
            final(self).wf(),
            final(self).account() == old(self).account(),
            final(self).control() == (RunControl { is_cancelled: true, ..old(self).control() }),
    {
        self.control.is_cancelled = true;
    }

    /// The status of the run.
    pub fn get_status(&self) -> (status: IndexProgress)
        ensures
            status.total_files == self.control().total_files,
            status.processed_files == self.control().processed_files,
            status.current_file@ == self.control().current_file@,
            status.state@ == self.control().status_text(),
            status.is_complete == self.control().is_complete,
    {
        let word: &str = if self.control.is_complete {
            "Completed"
        } else if self.control.is_cancelled {
            "Cancelled"
        } else if self.control.is_paused {
            "Paused"
        } else {
            "Running"
        };
        IndexProgress {
            total_files: self.control.total_files,
            processed_files: self.control.processed_files,
            current_file: self.control.current_file.clone(),
            state: String::from_str(word),
            is_complete: self.control.is_complete,
        }
    }

    /// Begins a run over `total_files` files: the flags are cleared and
    /// nothing is processed yet.
    pub fn begin_run(&mut self, total_files: usize)
        requires
            old(self).wf(),
        ensures
            final(self).wf(),
            final(self).account() == old(self).account(),
            final(self).control().total_files == total_files,
            final(self).control().processed_files == 0,
            !final(self).control().is_paused,
            !final(self).control().is_cancelled,
            !final(self).control().is_complete,
            final(self).control().current_file@ == starting_text(total_files as nat),
    {
        let mut line = String::from_str("Starting to index ");
        push_decimal(&mut line, total_files as u64);
        line.append(" files...");
        self.control = RunControl {
            is_paused: false,
            is_cancelled: false,
            is_complete: false,
            total_files,
            processed_files: 0,
            current_file: line,
        };
    }

    /// Indexes one file record: its document is handed to the writer.
    pub fn index_file(&mut self, info: &FileInfo) -> (r: Result<(), IndexError>)
        requires
            old(self).wf(),
        ensures
            final(self).wf(),
            final(self).control() == old(self).control(),
            match r {
                Ok(_) => final(self).account() == old(self).account().appended(),
                Err(e) => e == IndexError::WriteAppendFailure && final(self).account() == old(
                    self,
                ).account().refused(),
            },
    {
        let doc = prepare_document(info);
        self.append(&doc)
    }

    /// One step of a run. The step that meets the cancel flag ends the run:
    /// a last commit is tried and the run is complete. A paused run does
    /// nothing. Else the file counts as processed and is indexed; a file
    /// that the writer refuses is skipped; after every
    /// `PLAIN_COMMIT_INTERVAL` files a commit is tried.
    pub fn index_next(&mut self, info: &FileInfo) -> (step: FileStep)
        requires
            old(self).wf(),
            old(self).control().processed_files < old(self).control().total_files,
        ensures
            final(self).wf(),
            final(self).control().is_paused == old(self).control().is_paused,
            final(self).control().is_cancelled == old(self).control().is_cancelled,
            final(self).control().total_files == old(self).control().total_files,
            step == FileStep::Cancelled <==> old(self).control().is_cancelled,
            step == FileStep::Paused <==> (!old(self).control().is_cancelled && old(
                self,
            ).control().is_paused),
            step == FileStep::Cancelled ==> {
                &&& final(self).control() == (RunControl {
                    is_complete: true,
                    ..old(self).control()
                })
                &&& (final(self).account() == old(self).account() || final(self).account()
                    == old(self).account().published())
            },
            step == FileStep::Paused ==> {
                &&& final(self).control() == old(self).control()
                &&& final(self).account() == old(self).account()
            },
            (step == FileStep::Indexed || step == FileStep::Skipped) ==> {
                &&& final(self).control().is_complete == old(self).control().is_complete
                &&& final(self).control().processed_files == old(self).control().processed_files
                    + 1
                &&& final(self).control().current_file@ == info.path@
            },
            step == FileStep::Skipped ==> final(self).account() == old(self).account().refused(),
            step == FileStep::Indexed ==> if (old(self).control().processed_files + 1)
                % PLAIN_COMMIT_INTERVAL as int == 0 {
                final(self).account() == old(self).account().appended() || final(self).account()
                    == old(self).account().appended().published()
            } else {
                final(self).account() == old(self).account().appended()
            },
    {
        if self.control.is_cancelled {
            if !self.control.is_complete {
                let _ = self.commit();
                self.control.is_complete = true;
            }
            return FileStep::Cancelled;
        }
        if self.control.is_paused {
            return FileStep::Paused;
        }
        self.control.processed_files = self.control.processed_files + 1;
        self.control.current_file = info.path.clone();
        match self.index_file(info) {
            Ok(_) => {},
            Err(_) => {
                return FileStep::Skipped;
            },
        }
        if self.control.processed_files % PLAIN_COMMIT_INTERVAL == 0 {
            let _ = self.commit();
        }
        FileStep::Indexed
    }

    /// Ends a run: a last commit is tried, and the run is complete.
    pub fn finish_run(&mut self)
        requires
            old(self).wf(),
        ensures
            final(self).wf(),
            final(self).control().is_complete,
            final(self).control().is_paused == old(self).control().is_paused,
            final(self).control().is_cancelled == old(self).control().is_cancelled,
            final(self).control().total_files == old(self).control().total_files,
            final(self).control().processed_files == old(self).control().processed_files,
            final(self).control().current_file@ == completed_text(
                old(self).control().total_files as nat,
            ),
            final(self).account() == old(self).account() || final(self).account() == old(
                self,
            ).account().published(),
    {
        let _ = self.commit();
        let mut line = String::from_str("Completed indexing ");
        push_decimal(&mut line, self.control.total_files as u64);
        line.append(" files");
        self.control.is_complete = true;
        self.control.current_file = line;
    }

    /// Indexes the files of a scanned directory, one after the other, with
    /// a commit tried after every `PLAIN_COMMIT_INTERVAL` files and at the
    /// end. A file that the writer refuses is skipped. The run is complete
    /// afterwards, and every file counts as processed.
    pub fn index_directory(&mut self, files: &Vec<FileInfo>)
        requires
            old(self).wf(),
        ensures
            final(self).wf(),
            final(self).control().is_complete,
            !final(self).control().is_paused,
            !final(self).control().is_cancelled,
            final(self).control().total_files == files@.len(),
            final(self).control().processed_files == files@.len(),
            final(self).control().current_file@ == completed_text(files@.len()),
            final(self).account().received == old(self).account().received + files@.len(),
            final(self).account().committed >= old(self).account().committed,
    {
        self.begin_run(files.len());
        let mut i: usize = 0;
        while i < files.len()
            invariant
                i <= files.len(),
                self.wf(),
                !self.control().is_paused,
                !self.control().is_cancelled,
                !self.control().is_complete,
                self.control().total_files == files@.len(),
                self.control().processed_files == i,
                self.account().received == old(self).account().received + i,
                self.account().committed >= old(self).account().committed,
            decreases files.len() - i,
        {
            let _ = self.index_next(&files[i]);
            i += 1;
        }
        self.finish_run();
    }
}

/// The first failure among the documents of a result, if one of them cannot
/// become a hit.
pub open spec fn hits_failure(docs: Seq<FileDocument>) -> Option<IndexError>
    decreases docs.len(),
{
    if docs.len() == 0 {
        None
    } else if hit_failure(docs[0]@) is Some {
        hit_failure(docs[0]@)
    } else {
        hits_failure(docs.drop_first())
    }
}

/// Makes the hits of the stored fields of a result, in order: one hit for
/// each document, or the failure of the first document that cannot become
/// one.
pub fn project_hits(docs: &Vec<FileDocument>) -> (r: Result<Vec<SearchDoc>, IndexError>)
    ensures
        match hits_failure(docs@) {
            Some(e) => r == Err::<Vec<SearchDoc>, IndexError>(e),
            None => r is Ok && r->Ok_0@.len() == docs@.len() && forall|i: int|
                0 <= i < docs@.len() ==> (#[trigger] r->Ok_0@[i]).shows(docs@[i]@),
        },
        r matches Err(e) ==> e == IndexError::MissingPath || e == IndexError::MissingName,
{
    let mut hits: Vec<SearchDoc> = Vec::new();
    let mut i: usize = 0;
    assert(docs@.skip(0) =~= docs@);
    while i < docs.len()
        invariant
            i <= docs.len(),
            hits@.len() == i,
            hits_failure(docs@) == hits_failure(docs@.skip(i as int)),
            forall|k: int| 0 <= k < i ==> (#[trigger] hits@[k]).shows(docs@[k]@),
        decreases docs.len() - i,
    {
        let ghost rest = docs@.skip(i as int);
        assert(rest[0] == docs@[i as int]);
        assert(rest.drop_first() =~= docs@.skip(i + 1));
        match project_hit(&docs[i]) {
            Ok(hit) => {
                hits.push(hit);
            },
            Err(e) => {
                return Err(e);
            },
        }
        i += 1;
    }
    assert(docs@.skip(i as int).len() == 0);
    Ok(hits)
}

/// Once nothing is pending, the documents in the index are the documents
/// received less those that were refused or left out: every successful
/// commit publishes all that waited, and nothing else changes the
/// committed count.
pub proof fn lemma_committed_is_received_less_failed(account: Accounting)
    requires
        account.balanced(),
        account.pending == 0,
    ensures
        account.committed == account.received - (account.rejected + account.abandoned),
{
}

/// Appending, refusing and leaving out never change what is committed, and
/// keep the account balanced; only a commit publishes.
pub proof fn lemma_only_commit_publishes(account: Accounting, n: nat)
    requires
        account.balanced(),
    ensures
        account.appended().balanced() && account.appended().committed == account.committed,
        account.refused().balanced() && account.refused().committed == account.committed,
        account.left_out(n).balanced() && account.left_out(n).committed == account.committed,
        account.published().balanced() && account.published().committed == account.committed
            + account.pending,
{
}

} // verus!
