//! Schema projection: the IR's collection, type and capability descriptions
//! mapped into the legacy schema and capability shapes, and a legacy schema
//! request applied to the projected schema.

use vstd::prelude::*;

use crate::ir;
use crate::legacy::{
    ColumnInfo, ColumnType, DetailLevel, FunctionInfo, ObjectTypeDefinition, ScalarTypeCapabilities,
    SchemaRequest, SchemaResponse, TableInfo,
};

verus! {

broadcast use vstd::seq::axiom_seq_index_decreases, vstd::std_specs::vec::axiom_vec_decreases_to_view;

/// A failure of the schema projection.
#[derive(Debug)]
pub enum SchemaMappingError {
    /// A collection names an object type the schema does not define.
    ObjectTypeNotFound { collection_type: String, table: String },
}

// ---------------------------------------------------------------------------
// Mirrors.
// ---------------------------------------------------------------------------

/// Mirror of [`ColumnType`].
#[verifier::ext_equal]
pub ghost enum ColumnTypeV {
    Scalar(Seq<char>),
    Object { name: Seq<char> },
    Array { element_type: Box<ColumnTypeV>, nullable: bool },
}

/// Mirror of [`ColumnInfo`].
#[verifier::ext_equal]
pub ghost struct ColumnInfoV {
    pub name: Seq<char>,
    pub column_type: ColumnTypeV,
    pub nullable: bool,
    pub description: Option<Seq<char>>,
}

/// Mirror of [`TableInfo`].
#[verifier::ext_equal]
pub ghost struct TableInfoV {
    pub name: Seq<Seq<char>>,
    pub description: Option<Seq<char>>,
    pub table_type: Option<Seq<char>>,
    pub columns: Option<Seq<ColumnInfoV>>,
}

/// Mirror of [`ObjectTypeDefinition`].
#[verifier::ext_equal]
pub ghost struct ObjectTypeDefinitionV {
    pub name: Seq<char>,
    pub description: Option<Seq<char>>,
    pub columns: Seq<ColumnInfoV>,
}

/// Mirror of [`FunctionInfo`].
#[verifier::ext_equal]
pub ghost struct FunctionInfoV {
    pub name: Seq<Seq<char>>,
    pub function_type: Option<Seq<char>>,
    pub description: Option<Seq<char>>,
}

/// Mirror of [`SchemaResponse`].
#[verifier::ext_equal]
pub ghost struct SchemaResponseV {
    pub object_types: Option<Seq<ObjectTypeDefinitionV>>,
    pub tables: Seq<TableInfoV>,
    pub functions: Option<Seq<FunctionInfoV>>,
}

/// Mirror of [`ScalarTypeCapabilities`].
#[verifier::ext_equal]
pub ghost struct ScalarTypeCapabilitiesV {
    pub aggregate_functions: Option<Seq<(Seq<char>, Seq<char>)>>,
    pub comparison_operators: Option<Seq<(Seq<char>, Seq<char>)>>,
}

/// The mirror of an optional string.
pub open spec fn opt_str_view(s: Option<String>) -> Option<Seq<char>> {
    match s {
        Some(x) => Some(x@),
        None => None,
    }
}

/// The mirror of a name's segments.
pub open spec fn segments_view(s: Seq<String>) -> Seq<Seq<char>> {
    s.map_values(|x: String| x@)
}

/// The mirror of a column type.
pub open spec fn column_type_view(t: ColumnType) -> ColumnTypeV
    decreases t,
{
    match t {
        ColumnType::Scalar(name) => ColumnTypeV::Scalar(name@),
        ColumnType::Object { name } => ColumnTypeV::Object { name: name@ },
        ColumnType::Array { element_type, nullable } => ColumnTypeV::Array {
            element_type: Box::new(column_type_view(*element_type)),
            nullable,
        },
    }
}

/// The mirror of a column.
pub open spec fn column_info_view(c: ColumnInfo) -> ColumnInfoV {
    ColumnInfoV {
        name: c.name@,
        column_type: column_type_view(c.column_type),
        nullable: c.nullable,
        description: opt_str_view(c.description),
    }
}

/// The mirror of a column vector.
pub open spec fn columns_view(s: Seq<ColumnInfo>) -> Seq<ColumnInfoV> {
    s.map_values(|c: ColumnInfo| column_info_view(c))
}

/// The mirror of a table.
pub open spec fn table_info_view(t: TableInfo) -> TableInfoV {
    TableInfoV {
        name: segments_view(t.name@),
        description: opt_str_view(t.description),
        table_type: opt_str_view(t.table_type),
        columns: match t.columns {
            Some(cs) => Some(columns_view(cs@)),
            None => None,
        },
    }
}

/// The mirror of an object type definition.
pub open spec fn object_type_definition_view(o: ObjectTypeDefinition) -> ObjectTypeDefinitionV {
    ObjectTypeDefinitionV {
        name: o.name@,
        description: opt_str_view(o.description),
        columns: columns_view(o.columns@),
    }
}

/// The mirror of a function.
pub open spec fn function_info_view(f: FunctionInfo) -> FunctionInfoV {
    FunctionInfoV {
        name: segments_view(f.name@),
        function_type: opt_str_view(f.function_type),
        description: opt_str_view(f.description),
    }
}

/// The mirror of a legacy schema response.
pub open spec fn schema_response_view(s: SchemaResponse) -> SchemaResponseV {
    SchemaResponseV {
        object_types: match s.object_types {
            Some(os) => Some(os@.map_values(|o: ObjectTypeDefinition| object_type_definition_view(o))),
            None => None,
        },
        tables: s.tables@.map_values(|t: TableInfo| table_info_view(t)),
        functions: match s.functions {
            Some(fs) => Some(fs@.map_values(|f: FunctionInfo| function_info_view(f))),
            None => None,
        },
    }
}

// ---------------------------------------------------------------------------
// Field types.
// ---------------------------------------------------------------------------

/// Whether an IR type mentions no predicate type anywhere; predicate-typed
/// fields have no legacy counterpart.
pub open spec fn type_predicate_free(t: ir::Type) -> bool
    decreases t,
{
    match t {
        ir::Type::Named { .. } => true,
        ir::Type::Nullable { underlying_type } => type_predicate_free(*underlying_type),
        ir::Type::Array { element_type } => type_predicate_free(*element_type),
        ir::Type::Predicate { .. } => false,
    }
}

/// Whether every field of a field vector has a predicate-free type.
pub open spec fn fields_predicate_free(fields: Seq<(String, ir::ObjectField)>) -> bool {
    forall|j: int|
        0 <= j < fields.len() ==> type_predicate_free(#[trigger] fields[j].1.field_type)
}

/// Whether every object type of the schema has predicate-free fields.
pub open spec fn object_types_predicate_free(entries: Seq<(String, ir::ObjectType)>) -> bool {
    forall|i: int| 0 <= i < entries.len() ==> fields_predicate_free(#[trigger] entries[i].1.fields@)
}

/// The first object type of the given name.
pub open spec fn spec_find_object_type(
    entries: Seq<(String, ir::ObjectType)>,
    name: Seq<char>,
) -> Option<ir::ObjectType>
    decreases entries,
{
    if entries.len() == 0 {
        None
    } else if entries[0].0@ == name {
        Some(entries[0].1)
    } else {
        spec_find_object_type(entries.drop_first(), name)
    }
}

/// The legacy column type an IR type projects to: a name is an object
/// reference when the schema defines an object type of that name, else a
/// scalar; nullability wrappers are dropped; arrays keep their element type
/// and note a nullable element.
pub open spec fn spec_get_field_type(
    t: ir::Type,
    object_types: Seq<(String, ir::ObjectType)>,
) -> ColumnTypeV
    decreases t,
{
    match t {
        ir::Type::Named { name } => if spec_find_object_type(object_types, name@) is Some {
            ColumnTypeV::Object { name: name@ }
        } else {
            ColumnTypeV::Scalar(name@)
        },
        ir::Type::Nullable { underlying_type } => spec_get_field_type(
            *underlying_type,
            object_types,
        ),
        ir::Type::Array { element_type } => ColumnTypeV::Array {
            element_type: Box::new(spec_get_field_type(*element_type, object_types)),
            nullable: *element_type is Nullable,
        },
        ir::Type::Predicate { .. } => ColumnTypeV::Scalar(Seq::empty()),
    }
}

/// Find the index of the object type of the given name.
fn find_object_type_index(
    entries: &Vec<(String, ir::ObjectType)>,
    name: &String,
) -> (r: Option<usize>)
    ensures
        match r {
            Some(i) => i < entries@.len() && spec_find_object_type(entries@, name@) == Some(
                entries@[i as int].1,
            ),
            None => spec_find_object_type(entries@, name@) is None,
        },
{
    let count = entries.len();
    proof {
        assert(entries@.subrange(0, count as int) =~= entries@);
    }
    let mut i: usize = 0;
    while i < count
        invariant
            count == entries@.len(),
            i <= count,
            spec_find_object_type(entries@, name@) == spec_find_object_type(
                entries@.subrange(i as int, count as int),
                name@,
            ),
        decreases count - i,
    {
        proof {
            assert(entries@.subrange(i as int, count as int)[0] == entries@[i as int]);
        }
        if entries[i].0 == *name {
            return Some(i);
        }
        proof {
            assert(entries@.subrange(i as int, count as int).drop_first() =~= entries@.subrange(
                i as int + 1,
                count as int,
            ));
        }
        i = i + 1;
    }
    None
}

/// Project an IR type into a legacy column type.
pub fn get_field_type(t: &ir::Type, object_types: &Vec<(String, ir::ObjectType)>) -> (r: ColumnType)
    requires
        type_predicate_free(*t),
    ensures
        column_type_view(r) == spec_get_field_type(*t, object_types@),
    decreases *t,
{
    match t {
        ir::Type::Named { name } => {
            if find_object_type_index(object_types, name).is_some() {
                ColumnType::Object { name: name.clone() }
            } else {
                ColumnType::Scalar(name.clone())
            }
        },
        ir::Type::Nullable { underlying_type } => get_field_type(underlying_type, object_types),
        ir::Type::Array { element_type } => {
            let nullable = matches!(&**element_type, ir::Type::Nullable { .. });
            ColumnType::Array {
                element_type: Box::new(get_field_type(element_type, object_types)),
                nullable,
            }
        },
        ir::Type::Predicate { .. } => {
            proof {
                assert(false);
            }
            ColumnType::Scalar(String::new())
        },
    }
}

// ---------------------------------------------------------------------------
// Schema projection.
// ---------------------------------------------------------------------------

/// The legacy column one IR object field projects to.
pub open spec fn spec_map_column(
    name: Seq<char>,
    field: ir::ObjectField,
    object_types: Seq<(String, ir::ObjectType)>,
) -> ColumnInfoV {
    ColumnInfoV {
        name,
        column_type: spec_get_field_type(field.field_type, object_types),
        nullable: field.field_type is Nullable,
        description: opt_str_view(field.description),
    }
}

/// The legacy columns one IR field vector projects to.
pub open spec fn spec_map_columns(
    fields: Seq<(String, ir::ObjectField)>,
    object_types: Seq<(String, ir::ObjectType)>,
) -> Seq<ColumnInfoV> {
    fields.map_values(|p: (String, ir::ObjectField)| spec_map_column(p.0@, p.1, object_types))
}

/// The legacy table one IR collection projects to: its object type must be
/// defined by the schema, and yields the column list.
pub open spec fn spec_map_table(
    c: ir::CollectionInfo,
    object_types: Seq<(String, ir::ObjectType)>,
) -> Result<TableInfoV, SchemaMappingError> {
    match spec_find_object_type(object_types, c.collection_type@) {
        None => Err(
            SchemaMappingError::ObjectTypeNotFound {
                collection_type: c.collection_type,
                table: c.name,
            },
        ),
        Some(ot) => Ok(
            TableInfoV {
                name: seq![c.name@],
                description: opt_str_view(c.description),
                table_type: None,
                columns: Some(spec_map_columns(ot.fields@, object_types)),
            },
        ),
    }
}

/// The legacy tables the IR collections project to, or the first collection
/// whose object type is missing.
pub open spec fn spec_map_tables(
    collections: Seq<ir::CollectionInfo>,
    object_types: Seq<(String, ir::ObjectType)>,
) -> Result<Seq<TableInfoV>, SchemaMappingError>
    decreases collections,
{
    if collections.len() == 0 {
        Ok(Seq::empty())
    } else {
        match spec_map_tables(collections.drop_last(), object_types) {
            Ok(vs) => match spec_map_table(collections.last(), object_types) {
                Ok(v) => Ok(vs.push(v)),
                Err(e) => Err(e),
            },
            Err(e) => Err(e),
        }
    }
}

/// A failing prefix decides the whole collection list's projection.
proof fn lemma_map_tables_prefix_err(
    collections: Seq<ir::CollectionInfo>,
    object_types: Seq<(String, ir::ObjectType)>,
    k: int,
)
    requires
        0 <= k <= collections.len(),
        spec_map_tables(collections.subrange(0, k), object_types) is Err,
    ensures
        spec_map_tables(collections, object_types) == spec_map_tables(
            collections.subrange(0, k),
            object_types,
        ),
    decreases collections.len(),
{
    if collections.len() == k {
        assert(collections.subrange(0, k) =~= collections);
    } else {
        assert(collections.drop_last().subrange(0, k) =~= collections.subrange(0, k));
        lemma_map_tables_prefix_err(collections.drop_last(), object_types, k);
    }
}

/// The legacy object type definitions the IR object types project to.
pub open spec fn spec_map_object_types(
    entries: Seq<(String, ir::ObjectType)>,
) -> Seq<ObjectTypeDefinitionV> {
    entries.map_values(
        |p: (String, ir::ObjectType)| ObjectTypeDefinitionV {
            name: p.0@,
            description: opt_str_view(p.1.description),
            columns: spec_map_columns(p.1.fields@, entries),
        },
    )
}

/// The legacy schema the IR schema projects to: one table per collection,
/// every object type carried over, and no functions.
pub open spec fn spec_map_schema(schema: ir::SchemaResponse) -> Result<
    SchemaResponseV,
    SchemaMappingError,
> {
    match spec_map_tables(schema.collections@, schema.object_types@) {
        Err(e) => Err(e),
        Ok(tables) => Ok(
            SchemaResponseV {
                tables,
                object_types: Some(spec_map_object_types(schema.object_types@)),
                functions: None,
            },
        ),
    }
}

/// Project the columns of one IR field vector.
fn map_columns(
    fields: &Vec<(String, ir::ObjectField)>,
    object_types: &Vec<(String, ir::ObjectType)>,
) -> (r: Vec<ColumnInfo>)
    requires
        fields_predicate_free(fields@),
    ensures
        columns_view(r@) == spec_map_columns(fields@, object_types@),
{
    let mut acc: Vec<ColumnInfo> = Vec::new();
    let count = fields.len();
    let mut i: usize = 0;
    while i < count
        invariant
            fields_predicate_free(fields@),
            count == fields@.len(),
            i <= count,
            acc@.len() == i,
            forall|j: int|
                0 <= j < i ==> column_info_view(#[trigger] acc@[j]) == spec_map_column(
                    fields@[j].0@,
                    fields@[j].1,
                    object_types@,
                ),
        decreases count - i,
    {
        let entry = &fields[i];
        let nullable = matches!(&entry.1.field_type, ir::Type::Nullable { .. });
        let col = ColumnInfo {
            name: entry.0.clone(),
            column_type: get_field_type(&entry.1.field_type, object_types),
            nullable,
            description: clone_opt_string(&entry.1.description),
        };
        acc.push(col);
        i = i + 1;
    }
    proof {
        assert(columns_view(acc@) =~= spec_map_columns(fields@, object_types@));
    }
    acc
}

/// Clone an optional string.
fn clone_opt_string(s: &Option<String>) -> (r: Option<String>)
    ensures
        opt_str_view(r) == opt_str_view(*s),
{
    match s {
        Some(x) => Some(x.clone()),
        None => None,
    }
}

/// Project the IR schema into the legacy schema shape.
pub fn map_schema(schema: &ir::SchemaResponse) -> (r: Result<SchemaResponse, SchemaMappingError>)
    requires
        object_types_predicate_free(schema.object_types@),
    ensures
        match r {
            Ok(s) => spec_map_schema(*schema) == Ok::<_, SchemaMappingError>(
                schema_response_view(s),
            ),
            Err(e) => spec_map_schema(*schema) == Err::<SchemaResponseV, _>(e),
        },
{
    let mut tables: Vec<TableInfo> = Vec::new();
    let count = schema.collections.len();
    let mut i: usize = 0;
    proof {
        assert(schema.collections@.subrange(0, 0) =~= Seq::<ir::CollectionInfo>::empty());
        assert(tables@.map_values(|t: TableInfo| table_info_view(t)) =~= Seq::<
            TableInfoV,
        >::empty());
    }
    while i < count
        invariant
            object_types_predicate_free(schema.object_types@),
            count == schema.collections@.len(),
            i <= count,
            tables@.len() == i,
            spec_map_tables(schema.collections@.subrange(0, i as int), schema.object_types@)
                == Ok::<_, SchemaMappingError>(
                tables@.map_values(|t: TableInfo| table_info_view(t)),
            ),
        decreases count - i,
    {
        let ghost prefix = schema.collections@.subrange(0, i as int);
        let collection = &schema.collections[i];
        match find_object_type_index(&schema.object_types, &collection.collection_type) {
            None => {
                let err = SchemaMappingError::ObjectTypeNotFound {
                    collection_type: collection.collection_type.clone(),
                    table: collection.name.clone(),
                };
                proof {
                    let next = schema.collections@.subrange(0, i as int + 1);
                    assert(next.drop_last() =~= prefix);
                    assert(next.last() == schema.collections@[i as int]);
                    lemma_map_tables_prefix_err(
                        schema.collections@,
                        schema.object_types@,
                        i as int + 1,
                    );
                }
                return Err(err);
            },
            Some(oi) => {
                let ot = &schema.object_types[oi].1;
                proof {
                    assert(fields_predicate_free(ot.fields@));
                }
                let mut name: Vec<String> = Vec::new();
                name.push(collection.name.clone());
                let table = TableInfo {
                    name,
                    description: clone_opt_string(&collection.description),
                    table_type: None,
                    columns: Some(map_columns(&ot.fields, &schema.object_types)),
                };
                let ghost tables0 = tables@;
                proof {
                    assert(segments_view(table.name@) =~= seq![collection.name@]);
                    assert(table_info_view(table) =~~= spec_map_table(
                        schema.collections@[i as int],
                        schema.object_types@,
                    )->Ok_0);
                }
                tables.push(table);
                proof {
                    let next = schema.collections@.subrange(0, i as int + 1);
                    assert(next.drop_last() =~= prefix);
                    assert(next.last() == schema.collections@[i as int]);
                    assert(tables@.map_values(|t: TableInfo| table_info_view(t)) =~= tables0.map_values(
                        |t: TableInfo| table_info_view(t),
                    ).push(table_info_view(tables@.last())));
                }
            },
        }
        i = i + 1;
    }
    proof {
        assert(schema.collections@.subrange(0, count as int) =~= schema.collections@);
    }
    let mut object_types: Vec<ObjectTypeDefinition> = Vec::new();
    let ot_count = schema.object_types.len();
    let mut k: usize = 0;
    while k < ot_count
        invariant
            object_types_predicate_free(schema.object_types@),
            ot_count == schema.object_types@.len(),
            k <= ot_count,
            object_types@.len() == k,
            forall|j: int|
                0 <= j < k ==> object_type_definition_view(#[trigger] object_types@[j])
                    == spec_map_object_types(schema.object_types@)[j],
        decreases ot_count - k,
    {
        let entry = &schema.object_types[k];
        proof {
            assert(fields_predicate_free(entry.1.fields@));
        }
        let def = ObjectTypeDefinition {
            name: entry.0.clone(),
            description: clone_opt_string(&entry.1.description),
            columns: map_columns(&entry.1.fields, &schema.object_types),
        };
        object_types.push(def);
        k = k + 1;
    }
    let out = SchemaResponse { object_types: Some(object_types), tables, functions: None };
    proof {
        match spec_map_schema(*schema) {
            Ok(sv) => {
                assert(schema_response_view(out) =~~= sv);
            },
            Err(_) => {
                assert(false);
            },
        }
    }
    Ok(out)
}

// ---------------------------------------------------------------------------
// Schema requests.
// ---------------------------------------------------------------------------

/// Whether a name list contains the given segmented name.
pub open spec fn spec_name_selected(keep: Seq<Vec<String>>, name: Seq<String>) -> bool {
    exists|i: int|
        0 <= i < keep.len() && segments_view(#[trigger] keep[i]@) == segments_view(name)
}

/// The tables whose names the request keeps, in order.
pub open spec fn spec_filter_tables(tables: Seq<TableInfo>, keep: Seq<Vec<String>>) -> Seq<
    TableInfo,
>
    decreases tables,
{
    if tables.len() == 0 {
        Seq::empty()
    } else {
        let pre = spec_filter_tables(tables.drop_last(), keep);
        if spec_name_selected(keep, tables.last().name@) {
            pre.push(tables.last())
        } else {
            pre
        }
    }
}

/// The functions whose names the request keeps, in order.
pub open spec fn spec_filter_functions(functions: Seq<FunctionInfo>, keep: Seq<Vec<String>>) -> Seq<
    FunctionInfo,
>
    decreases functions,
{
    if functions.len() == 0 {
        Seq::empty()
    } else {
        let pre = spec_filter_functions(functions.drop_last(), keep);
        if spec_name_selected(keep, functions.last().name@) {
            pre.push(functions.last())
        } else {
            pre
        }
    }
}

/// A table reduced to basic information: only its name and type remain.
pub open spec fn spec_strip_table(t: TableInfo) -> TableInfoV {
    TableInfoV {
        name: segments_view(t.name@),
        description: None,
        table_type: opt_str_view(t.table_type),
        columns: None,
    }
}

/// A function reduced to basic information: only its name and type remain.
pub open spec fn spec_strip_function(f: FunctionInfo) -> FunctionInfoV {
    FunctionInfoV { name: segments_view(f.name@), function_type: opt_str_view(f.function_type), description: None }
}

/// The legacy schema a request narrows the projected schema to: the name
/// filters keep only the requested tables and functions, and the basic
/// detail level strips everything but names and types.
pub open spec fn spec_apply_schema_request(
    schema: SchemaResponse,
    request: Option<SchemaRequest>,
) -> SchemaResponseV {
    match request {
        None => schema_response_view(schema),
        Some(req) => {
            let kept_tables = match req.filters {
                Some(f) => match f.only_tables {
                    Some(keep) => spec_filter_tables(schema.tables@, keep@),
                    None => schema.tables@,
                },
                None => schema.tables@,
            };
            let tables = match req.detail_level {
                Some(DetailLevel::BasicInfo) => kept_tables.map_values(
                    |t: TableInfo| spec_strip_table(t),
                ),
                _ => kept_tables.map_values(|t: TableInfo| table_info_view(t)),
            };
            let functions = match schema.functions {
                None => None,
                Some(fs) => {
                    let kept = match req.filters {
                        Some(f) => match f.only_functions {
                            Some(keep) => spec_filter_functions(fs@, keep@),
                            None => fs@,
                        },
                        None => fs@,
                    };
                    match req.detail_level {
                        Some(DetailLevel::BasicInfo) => Some(
                            kept.map_values(|f: FunctionInfo| spec_strip_function(f)),
                        ),
                        _ => Some(kept.map_values(|f: FunctionInfo| function_info_view(f))),
                    }
                },
            };
            SchemaResponseV {
                object_types: match schema.object_types {
                    Some(os) => Some(
                        os@.map_values(|o: ObjectTypeDefinition| object_type_definition_view(o)),
                    ),
                    None => None,
                },
                tables,
                functions,
            }
        },
    }
}

/// Compare two segmented names.
fn names_equal(a: &Vec<String>, b: &Vec<String>) -> (r: bool)
    ensures
        r == (segments_view(a@) == segments_view(b@)),
{
    if a.len() != b.len() {
        proof {
            assert(segments_view(a@).len() != segments_view(b@).len());
        }
        return false;
    }
    let count = a.len();
    let mut i: usize = 0;
    while i < count
        invariant
            count == a@.len(),
            count == b@.len(),
            i <= count,
            forall|j: int| 0 <= j < i ==> #[trigger] a@[j]@ == b@[j]@,
        decreases count - i,
    {
        if !(a[i] == b[i]) {
            proof {
                assert(segments_view(a@)[i as int] != segments_view(b@)[i as int]);
            }
            return false;
        }
        i = i + 1;
    }
    proof {
        assert(segments_view(a@) =~= segments_view(b@));
    }
    true
}

/// Test whether a name list contains the given segmented name.
fn name_selected(keep: &Vec<Vec<String>>, name: &Vec<String>) -> (r: bool)
    ensures
        r == spec_name_selected(keep@, name@),
{
    let count = keep.len();
    let mut i: usize = 0;
    while i < count
        invariant
            count == keep@.len(),
            i <= count,
            forall|j: int|
                0 <= j < i ==> segments_view(#[trigger] keep@[j]@) != segments_view(name@),
        decreases count - i,
    {
        if names_equal(&keep[i], name) {
            return true;
        }
        i = i + 1;
    }
    false
}

/// Clone a segmented name.
fn clone_segments(name: &Vec<String>) -> (r: Vec<String>)
    ensures
        r@ == name@,
{
    let mut acc: Vec<String> = Vec::new();
    let count = name.len();
    let mut i: usize = 0;
    while i < count
        invariant
            count == name@.len(),
            i <= count,
            acc@.len() == i,
            forall|j: int| 0 <= j < i ==> acc@[j] == name@[j],
        decreases count - i,
    {
        acc.push(name[i].clone());
        i = i + 1;
    }
    proof {
        assert(acc@ =~= name@);
    }
    acc
}

/// Narrow a projected legacy schema to what a schema request asks for.
pub fn apply_schema_request(schema: SchemaResponse, request: &Option<SchemaRequest>) -> (r:
    SchemaResponse)
    ensures
        schema_response_view(r) == spec_apply_schema_request(schema, *request),
{
    let ghost schema0 = schema;
    match request {
        None => schema,
        Some(req) => {
            let SchemaResponse { object_types, tables, functions } = schema;
            let kept_tables: Vec<TableInfo> = match &req.filters {
                Some(f) => match &f.only_tables {
                    Some(keep) => {
                        let mut acc: Vec<TableInfo> = Vec::new();
                        let mut rest = tables;
                        let ghost orig = rest@;
                        while rest.len() > 0
                            invariant
                                acc@.len() <= orig.len() - rest@.len(),
                                rest@ =~= orig.subrange(
                                    orig.len() - rest@.len(),
                                    orig.len() as int,
                                ),
                                acc@ =~= spec_filter_tables(
                                    orig.subrange(0, orig.len() - rest@.len()),
                                    keep@,
                                ),
                            decreases rest.len(),
                        {
                            let ghost done = orig.len() - rest@.len();
                            let t = rest.remove(0);
                            proof {
                                assert(t == orig[done]);
                                assert(orig.subrange(done, orig.len() as int).drop_first()
                                    =~= orig.subrange(done + 1, orig.len() as int));
                                assert(orig.subrange(0, done + 1).drop_last() =~= orig.subrange(
                                    0,
                                    done,
                                ));
                                assert(orig.subrange(0, done + 1).last() == orig[done]);
                            }
                            if name_selected(keep, &t.name) {
                                acc.push(t);
                            }
                        }
                        proof {
                            assert(orig.subrange(0, orig.len() as int) =~= orig);
                        }
                        acc
                    },
                    None => tables,
                },
                None => tables,
            };
            let out_tables: Vec<TableInfo> = match &req.detail_level {
                Some(DetailLevel::BasicInfo) => {
                    let mut acc: Vec<TableInfo> = Vec::new();
                    let count = kept_tables.len();
                    let mut i: usize = 0;
                    while i < count
                        invariant
                            count == kept_tables@.len(),
                            i <= count,
                            acc@.len() == i,
                            forall|j: int|
                                0 <= j < i ==> table_info_view(#[trigger] acc@[j])
                                    == spec_strip_table(kept_tables@[j]),
                        decreases count - i,
                    {
                        let t = &kept_tables[i];
                        let stripped = TableInfo {
                            name: clone_segments(&t.name),
                            description: None,
                            table_type: clone_opt_string(&t.table_type),
                            columns: None,
                        };
                        proof {
                            assert(table_info_view(stripped) =~~= spec_strip_table(
                                kept_tables@[i as int],
                            ));
                        }
                        acc.push(stripped);
                        i = i + 1;
                    }
                    proof {
                        assert(acc@.map_values(|t: TableInfo| table_info_view(t))
                            =~= kept_tables@.map_values(|t: TableInfo| spec_strip_table(t)));
                    }
                    acc
                },
                _ => kept_tables,
            };
            let out_functions: Option<Vec<FunctionInfo>> = match functions {
                None => None,
                Some(fs) => {
                    let kept: Vec<FunctionInfo> = match &req.filters {
                        Some(f) => match &f.only_functions {
                            Some(keep) => {
                                let mut acc: Vec<FunctionInfo> = Vec::new();
                                let mut rest = fs;
                                let ghost orig = rest@;
                                while rest.len() > 0
                                    invariant
                                        acc@.len() <= orig.len() - rest@.len(),
                                        rest@ =~= orig.subrange(
                                            orig.len() - rest@.len(),
                                            orig.len() as int,
                                        ),
                                        acc@ =~= spec_filter_functions(
                                            orig.subrange(0, orig.len() - rest@.len()),
                                            keep@,
                                        ),
                                    decreases rest.len(),
                                {
                                    let ghost done = orig.len() - rest@.len();
                                    let f0 = rest.remove(0);
                                    proof {
                                        assert(f0 == orig[done]);
                                        assert(orig.subrange(done, orig.len() as int).drop_first()
                                            =~= orig.subrange(done + 1, orig.len() as int));
                                        assert(orig.subrange(0, done + 1).drop_last()
                                            =~= orig.subrange(0, done));
                                        assert(orig.subrange(0, done + 1).last() == orig[done]);
                                    }
                                    if name_selected(keep, &f0.name) {
                                        acc.push(f0);
                                    }
                                }
                                proof {
                                    assert(orig.subrange(0, orig.len() as int) =~= orig);
                                }
                                acc
                            },
                            None => fs,
                        },
                        None => fs,
                    };
                    match &req.detail_level {
                        Some(DetailLevel::BasicInfo) => {
                            let mut acc: Vec<FunctionInfo> = Vec::new();
                            let count = kept.len();
                            let mut i: usize = 0;
                            while i < count
                                invariant
                                    count == kept@.len(),
                                    i <= count,
                                    acc@.len() == i,
                                    forall|j: int|
                                        0 <= j < i ==> function_info_view(#[trigger] acc@[j])
                                            == spec_strip_function(kept@[j]),
                                decreases count - i,
                            {
                                let f0 = &kept[i];
                                let stripped = FunctionInfo {
                                    name: clone_segments(&f0.name),
                                    function_type: clone_opt_string(&f0.function_type),
                                    description: None,
                                };
                                proof {
                                    assert(function_info_view(stripped) =~~= spec_strip_function(
                                        kept@[i as int],
                                    ));
                                }
                                acc.push(stripped);
                                i = i + 1;
                            }
                            proof {
                                assert(acc@.map_values(|f1: FunctionInfo| function_info_view(f1))
                                    =~= kept@.map_values(
                                    |f1: FunctionInfo| spec_strip_function(f1),
                                ));
                            }
                            Some(acc)
                        },
                        _ => Some(kept),
                    }
                },
            };
            let out = SchemaResponse {
                object_types,
                tables: out_tables,
                functions: out_functions,
            };
            proof {
                assert(schema_response_view(out) =~~= spec_apply_schema_request(
                    schema0,
                    *request,
                ));
            }
            out
        },
    }
}

// ---------------------------------------------------------------------------
// Scalar-type capabilities.
// ---------------------------------------------------------------------------

/// The legacy aggregate-function entries of one scalar type: every function
/// whose result type is a plain name, mapped to that name; others dropped.
pub open spec fn spec_aggregate_entries(
    entries: Seq<(String, ir::AggregateFunctionDefinition)>,
) -> Seq<(Seq<char>, Seq<char>)>
    decreases entries,
{
    if entries.len() == 0 {
        Seq::empty()
    } else {
        let pre = spec_aggregate_entries(entries.drop_last());
        match entries.last().1.result_type {
            ir::Type::Named { name } => pre.push((entries.last().0@, name@)),
            _ => pre,
        }
    }
}

/// The legacy comparison-operator entries of one scalar type: equality and
/// membership map to themselves, a custom operator with a plain named
/// argument type maps to that name, and others are dropped.
pub open spec fn spec_comparison_entries(
    entries: Seq<(String, ir::ComparisonOperatorDefinition)>,
) -> Seq<(Seq<char>, Seq<char>)>
    decreases entries,
{
    if entries.len() == 0 {
        Seq::empty()
    } else {
        let pre = spec_comparison_entries(entries.drop_last());
        match entries.last().1 {
            ir::ComparisonOperatorDefinition::Equal => pre.push(("equal"@, "equal"@)),
            ir::ComparisonOperatorDefinition::In => pre.push(("in"@, "in"@)),
            ir::ComparisonOperatorDefinition::Custom { argument_type } => match argument_type {
                ir::Type::Named { name } => pre.push((entries.last().0@, name@)),
                _ => pre,
            },
        }
    }
}

/// The legacy capabilities of one scalar type.
pub open spec fn spec_scalar_capabilities(s: ir::ScalarType) -> ScalarTypeCapabilitiesV {
    ScalarTypeCapabilitiesV {
        aggregate_functions: Some(spec_aggregate_entries(s.aggregate_functions@)),
        comparison_operators: Some(spec_comparison_entries(s.comparison_operators@)),
    }
}

/// The legacy scalar-type capability map of the whole schema.
pub open spec fn spec_map_scalar_types(entries: Seq<(String, ir::ScalarType)>) -> Seq<
    (Seq<char>, ScalarTypeCapabilitiesV),
> {
    entries.map_values(|p: (String, ir::ScalarType)| (p.0@, spec_scalar_capabilities(p.1)))
}

/// The mirror of a scalar-type capability entry vector.
pub open spec fn scalar_capabilities_view(s: Seq<(String, ScalarTypeCapabilities)>) -> Seq<
    (Seq<char>, ScalarTypeCapabilitiesV),
> {
    s.map_values(
        |p: (String, ScalarTypeCapabilities)| (
            p.0@,
            ScalarTypeCapabilitiesV {
                aggregate_functions: match p.1.aggregate_functions {
                    Some(a) => Some(string_pairs_view(a@)),
                    None => None,
                },
                comparison_operators: match p.1.comparison_operators {
                    Some(c) => Some(string_pairs_view(c@)),
                    None => None,
                },
            },
        ),
    )
}

/// The mirror of a string-pair vector.
pub open spec fn string_pairs_view(s: Seq<(String, String)>) -> Seq<(Seq<char>, Seq<char>)> {
    s.map_values(|p: (String, String)| (p.0@, p.1@))
}

/// Map the aggregate functions of one scalar type.
fn map_aggregate_entries(
    entries: &Vec<(String, ir::AggregateFunctionDefinition)>,
) -> (r: Vec<(String, String)>)
    ensures
        string_pairs_view(r@) == spec_aggregate_entries(entries@),
{
    let mut acc: Vec<(String, String)> = Vec::new();
    let count = entries.len();
    let mut i: usize = 0;
    proof {
        assert(entries@.subrange(0, 0) =~= Seq::<
            (String, ir::AggregateFunctionDefinition),
        >::empty());
        assert(string_pairs_view(acc@) =~= Seq::<(Seq<char>, Seq<char>)>::empty());
    }
    while i < count
        invariant
            count == entries@.len(),
            i <= count,
            string_pairs_view(acc@) == spec_aggregate_entries(entries@.subrange(0, i as int)),
        decreases count - i,
    {
        let ghost prefix = entries@.subrange(0, i as int);
        let ghost acc0 = acc@;
        let entry = &entries[i];
        match &entry.1.result_type {
            ir::Type::Named { name } => {
                acc.push((entry.0.clone(), name.clone()));
                proof {
                    assert(string_pairs_view(acc@) =~= string_pairs_view(acc0).push(
                        (acc@.last().0@, acc@.last().1@),
                    ));
                }
            },
            _ => (),
        }
        proof {
            let next = entries@.subrange(0, i as int + 1);
            assert(next.drop_last() =~= prefix);
            assert(next.last() == entries@[i as int]);
        }
        i = i + 1;
    }
    proof {
        assert(entries@.subrange(0, count as int) =~= entries@);
    }
    acc
}

/// Map the comparison operators of one scalar type.
fn map_comparison_entries(
    entries: &Vec<(String, ir::ComparisonOperatorDefinition)>,
) -> (r: Vec<(String, String)>)
    ensures
        string_pairs_view(r@) == spec_comparison_entries(entries@),
{
    let mut acc: Vec<(String, String)> = Vec::new();
    let count = entries.len();
    let mut i: usize = 0;
    proof {
        assert(entries@.subrange(0, 0) =~= Seq::<
            (String, ir::ComparisonOperatorDefinition),
        >::empty());
        assert(string_pairs_view(acc@) =~= Seq::<(Seq<char>, Seq<char>)>::empty());
    }
    while i < count
        invariant
            count == entries@.len(),
            i <= count,
            string_pairs_view(acc@) == spec_comparison_entries(entries@.subrange(0, i as int)),
        decreases count - i,
    {
        let ghost prefix = entries@.subrange(0, i as int);
        let ghost acc0 = acc@;
        let entry = &entries[i];
        match &entry.1 {
            ir::ComparisonOperatorDefinition::Equal => {
                acc.push((String::from_str("equal"), String::from_str("equal")));
                proof {
                    assert(string_pairs_view(acc@) =~= string_pairs_view(acc0).push(
                        (acc@.last().0@, acc@.last().1@),
                    ));
                }
            },
            ir::ComparisonOperatorDefinition::In => {
                acc.push((String::from_str("in"), String::from_str("in")));
                proof {
                    assert(string_pairs_view(acc@) =~= string_pairs_view(acc0).push(
                        (acc@.last().0@, acc@.last().1@),
                    ));
                }
            },
            ir::ComparisonOperatorDefinition::Custom { argument_type } => match argument_type {
                ir::Type::Named { name } => {
                    acc.push((entry.0.clone(), name.clone()));
                    proof {
                        assert(string_pairs_view(acc@) =~= string_pairs_view(acc0).push(
                            (acc@.last().0@, acc@.last().1@),
                        ));
                    }
                },
                _ => (),
            },
        }
        proof {
            let next = entries@.subrange(0, i as int + 1);
            assert(next.drop_last() =~= prefix);
            assert(next.last() == entries@[i as int]);
        }
        i = i + 1;
    }
    proof {
        assert(entries@.subrange(0, count as int) =~= entries@);
    }
    acc
}

/// Project the IR scalar types into the legacy scalar-type capability map.
pub fn map_scalar_types(entries: &Vec<(String, ir::ScalarType)>) -> (r: Vec<
    (String, ScalarTypeCapabilities),
>)
    ensures
        scalar_capabilities_view(r@) == spec_map_scalar_types(entries@),
{
    let mut acc: Vec<(String, ScalarTypeCapabilities)> = Vec::new();
    let count = entries.len();
    let mut i: usize = 0;
    while i < count
        invariant
            count == entries@.len(),
            i <= count,
            acc@.len() == i,
            forall|j: int|
                0 <= j < i ==> scalar_capabilities_view(acc@)[j] == spec_map_scalar_types(
                    entries@,
                )[j],
        decreases count - i,
    {
        let entry = &entries[i];
        let caps = ScalarTypeCapabilities {
            aggregate_functions: Some(map_aggregate_entries(&entry.1.aggregate_functions)),
            comparison_operators: Some(map_comparison_entries(&entry.1.comparison_operators)),
        };
        acc.push((entry.0.clone(), caps));
        i = i + 1;
    }
    proof {
        assert(scalar_capabilities_view(acc@) =~= spec_map_scalar_types(entries@));
    }
    acc
}

/// Whether the connector reports support for comparisons across
/// relationship subqueries: present exactly when it reports relationship
/// capabilities at all, and true exactly when those include relation
/// comparisons.
pub open spec fn spec_supports_relations(c: ir::Capabilities) -> Option<bool> {
    match c.relationships {
        None => None,
        Some(rc) => Some(rc.relation_comparisons is Some),
    }
}

/// Read the subquery-comparison support flag off the IR capabilities.
pub fn supports_relations(capabilities: &ir::Capabilities) -> (r: Option<bool>)
    ensures
        r == spec_supports_relations(*capabilities),
{
    match &capabilities.relationships {
        None => None,
        Some(rc) => Some(rc.relation_comparisons.is_some()),
    }
}

} // verus!
