//! The calls into the index library. Verus believes the contracts in this
//! file without proof; each says what it takes from the library's source.

use vstd::prelude::*;

verus! {

#[verifier::external_type_specification]
#[verifier::external_body]
pub struct ExIndex(tantivy::Index);

#[verifier::external_type_specification]
#[verifier::external_body]
pub struct ExIndexWriter(tantivy::IndexWriter);

#[verifier::external_type_specification]
#[verifier::external_body]
pub struct ExIndexReader(tantivy::IndexReader);

#[verifier::external_type_specification]
#[verifier::external_body]
pub struct ExSearcher(tantivy::Searcher);

#[verifier::external_type_specification]
#[verifier::external_body]
pub struct ExSchema(tantivy::schema::Schema);

#[verifier::external_type_specification]
#[verifier::external_body]
pub struct ExSchemaBuilder(tantivy::schema::SchemaBuilder);

#[verifier::external_type_specification]
#[verifier::external_body]
pub struct ExDocument(tantivy::Document);

#[verifier::external_type_specification]
#[verifier::external_body]
pub struct ExQueryParser(tantivy::query::QueryParser);

#[verifier::external_type_specification]
#[verifier::external_body]
pub struct ExQueryParserError(tantivy::query::QueryParserError);

#[verifier::external_type_specification]
#[verifier::external_body]
pub struct ExTantivyError(tantivy::TantivyError);

/// The fields that a schema builder holds, in the order in which they were
/// added: the name of each, and whether its text is stored.
pub uninterp spec fn builder_fields(builder: tantivy::schema::SchemaBuilder) -> Seq<
    (Seq<char>, bool),
>;

/// The fields of a schema, in its order: the name of each, and whether its
/// text is stored.
pub uninterp spec fn schema_fields(schema: tantivy::schema::Schema) -> Seq<(Seq<char>, bool)>;

/// The fields of the schema of an index, in its order: the name of each,
/// and whether its text is stored.
pub uninterp spec fn index_fields(index: tantivy::Index) -> Seq<(Seq<char>, bool)>;

/// The fields of the schema that a query parser was made for.
pub uninterp spec fn parser_fields(parser: tantivy::query::QueryParser) -> Seq<
    (Seq<char>, bool),
>;

/// A name that the index library takes for a field: it is not empty and
/// does not begin with `-`.
pub open spec fn is_field_name(name: Seq<char>) -> bool {
    name.len() > 0 && name[0] != '-'
}

/// Every id of the list is the place of a field among `fields`.
pub open spec fn ids_in_range(ids: Seq<u32>, fields: Seq<(Seq<char>, bool)>) -> bool {
    forall|i: int| 0 <= i < ids.len() ==> (#[trigger] ids[i]) < fields.len()
}

/// No field of the list has the name `name`.
pub open spec fn name_is_free(fields: Seq<(Seq<char>, bool)>, name: Seq<char>) -> bool {
    forall|i: int| 0 <= i < fields.len() ==> (#[trigger] fields[i]).0 != name
}

/// The values that a document holds, in the order in which they were added:
/// of each the id of its field, and its text where the value is text.
pub uninterp spec fn document_values(doc: tantivy::Document) -> Seq<(u32, Option<Seq<char>>)>;

/// The ids of the fields that a query parser searches where a query names
/// none, in the order in which it was given them.
pub uninterp spec fn parser_defaults(parser: tantivy::query::QueryParser) -> Seq<u32>;

/// The boosts that were set on a query parser: the id of the field, and
/// the whole number that its boost was given as.
pub uninterp spec fn parser_boosts(parser: tantivy::query::QueryParser) -> Map<u32, u8>;

/// The boosts of a parser on which none was set.
pub open spec fn no_boosts() -> Map<u32, u8> {
    Map::empty()
}

/// The first value of the field `field` among `values`: its text where it
/// is text, and nothing where it is not, or where the field has no value.
pub open spec fn first_text(values: Seq<(u32, Option<Seq<char>>)>, field: u32) -> Option<
    Seq<char>,
>
    decreases values.len(),
{
    if values.len() == 0 {
        None
    } else if values[0].0 == field {
        values[0].1
    } else {
        first_text(values.drop_first(), field)
    }
}

/// The addresses, as segment ordinal and document id, of the documents that
/// a searcher's snapshot holds.
pub uninterp spec fn searcher_docs(searcher: tantivy::Searcher) -> Set<(u32, u32)>;

/// `Schema::builder()`: a builder that holds no field.
#[verifier::external_body]
pub(crate) fn new_schema_builder() -> (builder: tantivy::schema::SchemaBuilder)
    ensures
        builder_fields(builder) == Seq::<(Seq<char>, bool)>::empty(),
{
    tantivy::schema::Schema::builder()
}

/// `SchemaBuilder::add_text_field` with the options `TEXT | STORED`: the
/// field is added after those already there. The library panics on a name
/// that the builder holds already, on the empty name and on a name that
/// begins with `-`, so such a name is not admitted.
#[verifier::external_body]
pub(crate) fn add_stored_text_field(builder: &mut tantivy::schema::SchemaBuilder, name: &str)
    requires
        is_field_name(name@),
        name_is_free(builder_fields(*old(builder)), name@),
    ensures
        builder_fields(*final(builder)) == builder_fields(*old(builder)).push((name@, true)),
{
    builder.add_text_field(name, tantivy::schema::TEXT | tantivy::schema::STORED);
}

/// `SchemaBuilder::add_text_field` with the options `TEXT`: the field is
/// added after those already there. The library panics on a name that the
/// builder holds already, on the empty name and on a name that begins with
/// `-`, so such a name is not admitted.
#[verifier::external_body]
pub(crate) fn add_indexed_text_field(builder: &mut tantivy::schema::SchemaBuilder, name: &str)
    requires
        is_field_name(name@),
        name_is_free(builder_fields(*old(builder)), name@),
    ensures
        builder_fields(*final(builder)) == builder_fields(*old(builder)).push((name@, false)),
{
    builder.add_text_field(name, tantivy::schema::TEXT);
}

/// `SchemaBuilder::build`: the schema has the builder's fields, in the same
/// order.
#[verifier::external_body]
pub(crate) fn build_schema(builder: tantivy::schema::SchemaBuilder) -> (schema:
    tantivy::schema::Schema)
    ensures
        schema_fields(schema) == builder_fields(builder),
{
    builder.build()
}

/// `Index::create_in_ram`: a new index in memory whose schema is the given
/// one.
#[verifier::external_body]
pub(crate) fn create_in_ram(schema: tantivy::schema::Schema) -> (index: tantivy::Index)
    ensures
        index_fields(index) == schema_fields(schema),
{
    tantivy::Index::create_in_ram(schema)
}

/// `Index::schema`: the schema of the index.
#[verifier::external_body]
pub(crate) fn schema_of(index: &tantivy::Index) -> (schema: tantivy::schema::Schema)
    ensures
        schema_fields(schema) == index_fields(*index),
{
    index.schema()
}

/// `Schema::get_field`, then `Field::field_id`: the id of the field of
/// that name, or an error where the schema has none. The id of a field is
/// its place in the schema.
#[verifier::external_body]
pub(crate) fn get_field(schema: &tantivy::schema::Schema, name: &str) -> (r: Result<
    u32,
    tantivy::TantivyError,
>)
    ensures
        r is Ok <==> !name_is_free(schema_fields(*schema), name@),
        r matches Ok(id) ==> id < schema_fields(*schema).len() && schema_fields(
            *schema,
        )[id as int].0 == name@,
{
    schema.get_field(name).map(|field| field.field_id())
}

/// `Index::writer`: a writer with that memory budget, or an error. Nothing
/// is claimed of the outcome.
#[verifier::external_body]
pub(crate) fn open_writer(index: &tantivy::Index, budget: usize) -> Result<
    tantivy::IndexWriter,
    tantivy::TantivyError,
> {
    index.writer(budget)
}

/// `Document::new`: a document without values.
#[verifier::external_body]
pub(crate) fn new_index_document() -> (doc: tantivy::Document)
    ensures
        document_values(doc) == Seq::<(u32, Option<Seq<char>>)>::empty(),
{
    tantivy::Document::new()
}

/// `Document::add_text` under the field of the id `field`: the text is
/// added after the values already there.
#[verifier::external_body]
pub(crate) fn document_add_text(doc: &mut tantivy::Document, field: u32, text: &str)
    ensures
        document_values(*final(doc)) == document_values(*old(doc)).push((field, Some(text@))),
{
    doc.add_text(tantivy::schema::Field::from_field_id(field), text);
}

/// `IndexWriter::add_document`, without the operation stamp that it
/// returns. Nothing is claimed of the outcome.
#[verifier::external_body]
pub(crate) fn writer_add(writer: &mut tantivy::IndexWriter, doc: tantivy::Document) -> Result<
    (),
    tantivy::TantivyError,
> {
    writer.add_document(doc).map(|_| ())
}

/// `IndexWriter::commit`, without the operation stamp that it returns.
/// Nothing is claimed of the outcome.
#[verifier::external_body]
pub(crate) fn writer_commit(writer: &mut tantivy::IndexWriter) -> Result<
    (),
    tantivy::TantivyError,
> {
    writer.commit().map(|_| ())
}

/// `IndexWriter::wait_merging_threads`: blocks until the merges have ended
/// and uses the writer up. Nothing is claimed of the outcome.
#[verifier::external_body]
pub(crate) fn writer_wait_merges(writer: tantivy::IndexWriter) -> Result<
    (),
    tantivy::TantivyError,
> {
    writer.wait_merging_threads()
}

/// `Index::reader`: a reader, or an error. Nothing is claimed of the
/// outcome.
#[verifier::external_body]
pub(crate) fn open_reader(index: &tantivy::Index) -> Result<
    tantivy::IndexReader,
    tantivy::TantivyError,
> {
    index.reader()
}

/// `IndexReader::searcher`. Nothing is claimed of the searcher.
#[verifier::external_body]
pub(crate) fn reader_searcher(reader: &tantivy::IndexReader) -> tantivy::Searcher {
    reader.searcher()
}

/// `Searcher::num_docs`: the number of documents in the searcher's
/// snapshot. Nothing is claimed of it.
#[verifier::external_body]
pub(crate) fn searcher_num_docs(searcher: &tantivy::Searcher) -> u64 {
    searcher.num_docs()
}

/// `QueryParser::for_index` with the fields of these ids as default
/// fields: the parser is made for the schema of the index, it searches the
/// default fields in this order, and no boost is set.
#[verifier::external_body]
pub(crate) fn new_query_parser(index: &tantivy::Index, fields: Vec<u32>) -> (parser:
    tantivy::query::QueryParser)
    ensures
        parser_fields(parser) == index_fields(*index),
        parser_defaults(parser) == fields@,
        parser_boosts(parser) == no_boosts(),
{
    let fields = fields.into_iter().map(tantivy::schema::Field::from_field_id).collect();
    tantivy::query::QueryParser::for_index(index, fields)
}

/// `QueryParser::set_field_boost` for the field of the id `field`, the
/// boost given as a whole number: it takes the place of a boost set before
/// for that field, and nothing else changes.
#[verifier::external_body]
pub(crate) fn parser_set_boost(parser: &mut tantivy::query::QueryParser, field: u32, boost: u8)
    ensures
        parser_fields(*final(parser)) == parser_fields(*old(parser)),
        parser_defaults(*final(parser)) == parser_defaults(*old(parser)),
        parser_boosts(*final(parser)) == parser_boosts(*old(parser)).insert(field, boost),
{
    parser.set_field_boost(tantivy::schema::Field::from_field_id(field), boost.into());
}

/// `QueryParser::parse_query`, then `Searcher::search` of the parsed query
/// with the collector `TopDocs::with_limit(limit)`, which the library
/// panics on for a limit of zero. For a query that names no field the
/// parser looks its default fields up in its schema by their ids and
/// panics on an id that is no place there, so only a parser whose default
/// fields are fields of its schema is admitted. The parsed query is a trait object and
/// cannot pass through verified code, so both calls stand here. The outer
/// error is the parser's, the inner one the searcher's. The hits come by
/// falling score, each as the segment ordinal and document id of its
/// address: there are at most `limit`, and each lies in the searcher's
/// snapshot.
#[verifier::external_body]
pub(crate) fn run_query(
    searcher: &tantivy::Searcher,
    parser: &tantivy::query::QueryParser,
    query: &str,
    limit: usize,
) -> (r: Result<Result<Vec<(u32, u32)>, tantivy::TantivyError>, tantivy::query::QueryParserError>)
    requires
        limit > 0,
        ids_in_range(parser_defaults(*parser), parser_fields(*parser)),
    ensures
        r matches Ok(Ok(found)) ==> found@.len() <= limit && forall|i: int|
            0 <= i < found@.len() ==> searcher_docs(*searcher).contains(#[trigger] found@[i]),
{
    let parsed = parser.parse_query(query)?;
    let top = searcher.search(&parsed, &tantivy::collector::TopDocs::with_limit(limit));
    Ok(top.map(|hits| hits.into_iter().map(|(_, a)| (a.segment_ord, a.doc_id)).collect()))
}

/// `Searcher::doc`: the stored fields of the document at an address. The
/// library indexes its segments by the ordinal and panics on one that the
/// snapshot lacks, so only an address of the snapshot is admitted.
#[verifier::external_body]
pub(crate) fn fetch_doc(searcher: &tantivy::Searcher, address: (u32, u32)) -> Result<
    tantivy::Document,
    tantivy::TantivyError,
>
    requires
        searcher_docs(*searcher).contains(address),
{
    searcher.doc(tantivy::DocAddress::new(address.0, address.1))
}

/// `Document::get_first` of the field of the id `field`, then
/// `Value::as_text`: the first value of the field, where the document holds
/// one and it is text.
#[verifier::external_body]
pub(crate) fn document_first_text(doc: &tantivy::Document, field: u32) -> (text: Option<String>)
    ensures
        crate::file_info::option_text(text) == first_text(document_values(*doc), field),
{
    doc.get_first(tantivy::schema::Field::from_field_id(field)).and_then(
        |value| value.as_text(),
    ).map(|text| text.to_string())
}

} // verus!
