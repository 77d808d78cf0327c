use vstd::prelude::*;
use vstd::string::*;
use crate::abi::{ABIInput, EventInfo};
use crate::config::Storage;
use crate::naming::{camel_to_snake, contains_seq, contains_str, lower_of, snake_of, str_eq, to_lowercase};
use crate::projection::{
    flatten, generate_abi_name_properties, views, GenerateAbiNamePropertiesResult,
    GenerateAbiPropertiesType, Projected,
};
use crate::text::{generate_injected_param, joined, join, placeholders, escaped, escape_quotes, string_views};
use crate::types::begins;

verus! {

/// The names of an event's columns, quoted, records expanded.
pub open spec fn column_names_of(inputs: Seq<ABIInput>) -> Seq<Seq<char>> {
    flatten(inputs, GenerateAbiPropertiesType::PostgresColumnsNamesOnly, None).map_values(
        |p: Projected| p.value,
    )
}

fn values_of(props: &Vec<GenerateAbiNamePropertiesResult>) -> (r: Vec<String>)
    ensures
        string_views(r@) == views(props@).map_values(|p: Projected| p.value),
{
    let mut out: Vec<String> = Vec::new();
    let mut i: usize = 0;
    while i < props.len()
        invariant
            i <= props@.len(),
            string_views(out@) == views(props@.subrange(0, i as int)).map_values(|p: Projected| p.value),
        decreases props@.len() - i,
    {
        let ghost before = out@;
        let v = props[i].value.clone();
        out.push(v);
        proof {
            assert(string_views(out@) =~= string_views(before).push(props@[i as int].value@));
            assert(views(props@.subrange(0, i + 1)).map_values(|p: Projected| p.value) =~= views(
                props@.subrange(0, i as int),
            ).map_values(|p: Projected| p.value).push(props@[i as int].value@));
        }
        i = i + 1;
    }
    assert(props@.subrange(0, props@.len() as int) =~= props@);
    out
}

/// The quoted column names of an event's fields, records expanded.
pub fn generate_columns_names_only(inputs: &[ABIInput]) -> (r: Vec<String>)
    ensures
        string_views(r@) == column_names_of(inputs@),
{
    let props = generate_abi_name_properties(inputs, &GenerateAbiPropertiesType::PostgresColumnsNamesOnly, None);
    values_of(&props)
}

/// The schema that holds the tables of one contract of one indexer.
pub open spec fn schema_name_of(indexer: Seq<char>, contract: Seq<char>) -> Seq<char> {
    snake_of(indexer) + "_"@ + snake_of(contract)
}

/// Names the schema that holds the tables of one contract of one indexer.
pub fn indexer_contract_schema_name(indexer_name: &str, contract_name: &str) -> (r: String)
    ensures
        r@ == schema_name_of(indexer_name@, contract_name@),
{
    let a = camel_to_snake(indexer_name);
    let b = camel_to_snake(contract_name);
    a.concat("_").concat(b.as_str())
}

/// The insert statement of one event: a leading `contract_address` column, the
/// event's columns, three trailing transaction columns, and one positional
/// placeholder per column.
pub open spec fn insert_sql_of(indexer: Seq<char>, contract: Seq<char>, event: Seq<char>, inputs: Seq<ABIInput>) -> Seq<char> {
    "INSERT INTO "@ + schema_name_of(indexer, contract) + "."@ + snake_of(event) + " (contract_address, "@
        + joined(column_names_of(inputs), ", "@)
        + ", \"tx_hash\", \"block_number\", \"block_hash\") "@ + "VALUES("@
        + placeholders(4 + column_names_of(inputs).len()) + ")"@
}

/// Builds the parameterized insert statement of one event.
pub fn insert_statement(indexer_name: &str, contract_name: &str, event: &EventInfo) -> (r: String)
    ensures
        r@ == insert_sql_of(indexer_name@, contract_name@, event.name@, event.inputs@),
{
    let columns = generate_columns_names_only(event.inputs.as_slice());
    let schema = indexer_contract_schema_name(indexer_name, contract_name);
    let table = camel_to_snake(event.name.as_str());
    let cols = join(&columns, ", ");
    let params = generate_injected_param(4 + columns.len() as u128);
    String::from_str("INSERT INTO ").concat(schema.as_str()).concat(".").concat(table.as_str()).concat(
        " (contract_address, ",
    ).concat(cols.as_str()).concat(", \"tx_hash\", \"block_number\", \"block_hash\") ").concat(
        params.as_str(),
    )
}

/// A fixed-width byte type (`bytes32`), whose values need widening before
/// they are encoded; variable-width `bytes` does not.
pub open spec fn fixed_bytes(t: Seq<char>) -> bool {
    begins(t, "bytes"@) && t.len() > 5 && t[5] != '['
}

/// The value expression of one leaf for the insert statement.
pub open spec fn param_of(p: Projected) -> Seq<char> {
    match p.wrapper {
        Some(w) => "&"@ + w + "(&result.event_data."@ + p.value + (if fixed_bytes(p.abi_type) {
            ".into()"@
        } else {
            Seq::empty()
        }) + "),"@,
        None => "&result.event_data."@ + p.value + ","@,
    }
}

/// The value expressions of a sequence of leaves, concatenated.
pub open spec fn params_of(s: Seq<Projected>) -> Seq<char>
    decreases s.len(),
{
    if s.len() == 0 {
        Seq::empty()
    } else {
        params_of(s.drop_last()) + param_of(s.last())
    }
}

/// The full value list of the insert statement.
pub open spec fn params_sql_of(s: Seq<Projected>) -> Seq<char> {
    "&[&EthereumSqlTypeWrapper::Address(&result.tx_information.address),"@ + params_of(s)
        + "&EthereumSqlTypeWrapper::H256(&result.tx_information.transaction_hash.unwrap()),"@
        + "&EthereumSqlTypeWrapper::U64(&result.tx_information.block_number.unwrap()),"@
        + "&EthereumSqlTypeWrapper::H256(&result.tx_information.block_hash.unwrap())"@ + "]"@
}

fn is_fixed_bytes(t: &str) -> (r: bool)
    ensures
        r == fixed_bytes(t@),
{
    proof {
        reveal_strlit("bytes");
    }
    crate::naming::starts_with(t, "bytes") && t.unicode_len() > 5 && t.get_char(5) != '['
}

fn param_code(p: &GenerateAbiNamePropertiesResult) -> (r: String)
    ensures
        r@ == param_of(p@),
{
    match &p.ethereum_sql_type_wrapper {
        Some(w) => {
            let widen = if is_fixed_bytes(p.abi_type.as_str()) {
                ".into()"
            } else {
                ""
            };
            let r = String::from_str("&").concat(w.as_str()).concat("(&result.event_data.").concat(
                p.value.as_str(),
            ).concat(widen).concat("),");
            proof {
                reveal_strlit("");
            }
            r
        },
        None => String::from_str("&result.event_data.").concat(p.value.as_str()).concat(","),
    }
}

/// Builds the value list of the insert statement from the object-path leaves.
pub fn params_sql(props: &Vec<GenerateAbiNamePropertiesResult>) -> (r: String)
    ensures
        r@ == params_sql_of(views(props@)),
{
    let mut mid = String::new();
    let mut i: usize = 0;
    while i < props.len()
        invariant
            i <= props@.len(),
            mid@ == params_of(views(props@.subrange(0, i as int))),
        decreases props@.len() - i,
    {
        let c = param_code(&props[i]);
        mid.append(c.as_str());
        proof {
            let next = views(props@.subrange(0, i + 1));
            assert(next.drop_last() =~= views(props@.subrange(0, i as int)));
        }
        i = i + 1;
    }
    assert(props@.subrange(0, props@.len() as int) =~= props@);
    String::from_str("&[&EthereumSqlTypeWrapper::Address(&result.tx_information.address),").concat(
        mid.as_str(),
    ).concat("&EthereumSqlTypeWrapper::H256(&result.tx_information.transaction_hash.unwrap()),").concat(
        "&EthereumSqlTypeWrapper::U64(&result.tx_information.block_number.unwrap()),",
    ).concat("&EthereumSqlTypeWrapper::H256(&result.tx_information.block_hash.unwrap())").concat("]")
}

/// The row expression of one leaf for the flat-file sink: addresses in their
/// debug form, byte arrays as lowercase hex pairs, arrays comma-joined, the
/// rest by their default rendering.
pub open spec fn csv_value_of(p: Projected) -> Seq<char> {
    if p.abi_type == "address"@ {
        "format!(\"{:?}\", result.event_data."@ + p.value + ",),"@
    } else if contains_seq(p.abi_type, "bytes"@) {
        "result.event_data."@ + p.value
            + ".iter().map(|byte| format!(\"{:02x}\", byte)).collect::<Vec<_>>().join(\"\"),"@
    } else if contains_seq(p.abi_type, "[]"@) {
        "result.event_data."@ + p.value
            + ".iter().map(ToString::to_string).collect::<Vec<_>>().join(\",\"),"@
    } else {
        "result.event_data."@ + p.value + ".to_string(),"@
    }
}

pub open spec fn csv_values_of(s: Seq<Projected>) -> Seq<char>
    decreases s.len(),
{
    if s.len() == 0 {
        Seq::empty()
    } else {
        csv_values_of(s.drop_last()) + csv_value_of(s.last())
    }
}

/// The statement that appends one row per event occurrence to the flat file.
pub open spec fn csv_write_of(s: Seq<Projected>) -> Seq<char> {
    "context.csv.append(vec!["@ + "format!(\"{:?}\", result.tx_information.address),"@ + csv_values_of(s)
        + "format!(\"{:?}\", result.tx_information.transaction_hash.unwrap()),"@
        + "result.tx_information.block_number.unwrap().to_string(),"@
        + "result.tx_information.block_hash.unwrap().to_string()"@ + "]).await.unwrap();"@
}

fn csv_value_code(p: &GenerateAbiNamePropertiesResult) -> (r: String)
    ensures
        r@ == csv_value_of(p@),
{
    let t = p.abi_type.as_str();
    let v = p.value.as_str();
    if str_eq(t, "address") {
        String::from_str("format!(\"{:?}\", result.event_data.").concat(v).concat(",),")
    } else if contains_str(t, "bytes") {
        String::from_str("result.event_data.").concat(v).concat(
            ".iter().map(|byte| format!(\"{:02x}\", byte)).collect::<Vec<_>>().join(\"\"),",
        )
    } else if contains_str(t, "[]") {
        String::from_str("result.event_data.").concat(v).concat(
            ".iter().map(ToString::to_string).collect::<Vec<_>>().join(\",\"),",
        )
    } else {
        String::from_str("result.event_data.").concat(v).concat(".to_string(),")
    }
}

/// Builds the statement that appends one row to the flat file.
pub fn csv_write(props: &Vec<GenerateAbiNamePropertiesResult>) -> (r: String)
    ensures
        r@ == csv_write_of(views(props@)),
{
    let mut mid = String::new();
    let mut i: usize = 0;
    while i < props.len()
        invariant
            i <= props@.len(),
            mid@ == csv_values_of(views(props@.subrange(0, i as int))),
        decreases props@.len() - i,
    {
        let c = csv_value_code(&props[i]);
        mid.append(c.as_str());
        proof {
            let next = views(props@.subrange(0, i + 1));
            assert(next.drop_last() =~= views(props@.subrange(0, i as int)));
        }
        i = i + 1;
    }
    assert(props@.subrange(0, props@.len() as int) =~= props@);
    String::from_str("context.csv.append(vec![").concat("format!(\"{:?}\", result.tx_information.address),").concat(
        mid.as_str(),
    ).concat("format!(\"{:?}\", result.tx_information.transaction_hash.unwrap()),").concat(
        "result.tx_information.block_number.unwrap().to_string(),",
    ).concat("result.tx_information.block_hash.unwrap().to_string()").concat("]).await.unwrap();")
}

/// The statement that runs the insert of one event occurrence.
pub open spec fn postgres_write_of(sql: Seq<char>, s: Seq<Projected>) -> Seq<char> {
    "context.database.execute(\""@ + escaped(sql) + "\","@ + params_sql_of(s) + ").await.unwrap();"@
}

/// The object-path leaves of an event's fields.
pub open spec fn object_leaves(inputs: Seq<ABIInput>) -> Seq<Projected> {
    flatten(inputs, GenerateAbiPropertiesType::Object, None)
}

/// The write statements of one event: one per enabled sink.
pub struct SinkCode {
    pub postgres_write: String,
    pub csv_write: String,
}

/// Builds the write statements of one event for the enabled sinks. A disabled
/// sink gets no text at all; relational storage off and flat files on gives a
/// row statement and no insert statement.
pub fn event_sink_code(indexer_name: &str, contract_name: &str, event: &EventInfo, storage: &Storage) -> (r: SinkCode)
    ensures
        r.postgres_write@ == (if storage.postgres {
            postgres_write_of(
                insert_sql_of(indexer_name@, contract_name@, event.name@, event.inputs@),
                object_leaves(event.inputs@),
            )
        } else {
            Seq::empty()
        }),
        r.csv_write@ == (if storage.csv is Some {
            csv_write_of(object_leaves(event.inputs@))
        } else {
            Seq::empty()
        }),
        !storage.postgres ==> r.postgres_write@.len() == 0,
        storage.csv is Some ==> r.csv_write@.len() > 0,
{
    let props = generate_abi_name_properties(event.inputs.as_slice(), &GenerateAbiPropertiesType::Object, None);
    let postgres = if storage.postgres_enabled() {
        let sql = insert_statement(indexer_name, contract_name, event);
        let esc = escape_quotes(sql.as_str());
        let params = params_sql(&props);
        String::from_str("context.database.execute(\"").concat(esc.as_str()).concat("\",").concat(
            params.as_str(),
        ).concat(").await.unwrap();")
    } else {
        String::new()
    };
    let csv = if storage.csv_enabled() {
        proof {
            reveal_strlit("context.csv.append(vec![");
        }
        csv_write(&props)
    } else {
        String::new()
    };
    SinkCode { postgres_write: postgres, csv_write: csv }
}

/// The header row of an event's flat file: `contract_address`, the bare column
/// names, then the three transaction columns, each quoted.
pub open spec fn csv_headers_of(inputs: Seq<ABIInput>) -> Seq<Seq<char>> {
    seq!["\"contract_address\""@] + flatten(inputs, GenerateAbiPropertiesType::CsvHeaderNames, None).map_values(
        |p: Projected| p.value,
    ) + seq!["\"tx_hash\""@, "\"block_number\""@, "\"block_hash\""@]
}

/// Builds the header row of an event's flat file.
pub fn csv_headers(event: &EventInfo) -> (r: Vec<String>)
    ensures
        string_views(r@) == csv_headers_of(event.inputs@),
{
    let props = generate_abi_name_properties(event.inputs.as_slice(), &GenerateAbiPropertiesType::CsvHeaderNames, None);
    let names = values_of(&props);
    let mut out: Vec<String> = Vec::new();
    out.push(String::from_str("\"contract_address\""));
    let mut i: usize = 0;
    while i < names.len()
        invariant
            i <= names@.len(),
            string_views(out@) == seq!["\"contract_address\""@] + string_views(names@.subrange(0, i as int)),
        decreases names@.len() - i,
    {
        let ghost before = out@;
        let v = names[i].clone();
        out.push(v);
        assert(string_views(out@) =~= string_views(before).push(names@[i as int]@));
        assert(string_views(names@.subrange(0, i + 1)) =~= string_views(names@.subrange(0, i as int)).push(
            names@[i as int]@,
        ));
        assert(string_views(out@) =~= seq!["\"contract_address\""@] + string_views(names@.subrange(0, i + 1)));
        i = i + 1;
    }
    out.push(String::from_str("\"tx_hash\""));
    out.push(String::from_str("\"block_number\""));
    out.push(String::from_str("\"block_hash\""));
    assert(names@.subrange(0, names@.len() as int) =~= names@);
    assert(string_views(out@) =~= csv_headers_of(event.inputs@));
    out
}

/// The flat file of one event: `<contract>-<event>.csv`, lowercased, in the
/// folder of its contract.
pub open spec fn csv_file_of(base: Seq<char>, contract: Seq<char>, event: Seq<char>) -> Seq<char> {
    base + "/"@ + contract + "/"@ + lower_of(contract + "-"@ + event + ".csv"@)
}

/// The folder that holds a contract's flat files.
pub fn csv_folder(base: &str, contract_name: &str) -> (r: String)
    ensures
        r@ == base@ + "/"@ + contract_name@,
{
    String::from_str(base).concat("/").concat(contract_name)
}

/// The path of one event's flat file.
pub fn csv_file_path(base: &str, contract_name: &str, event_name: &str) -> (r: String)
    ensures
        r@ == csv_file_of(base@, contract_name@, event_name@),
{
    let file = String::from_str(contract_name).concat("-").concat(event_name).concat(".csv");
    let lower = to_lowercase(file.as_str());
    csv_folder(base, contract_name).concat("/").concat(lower.as_str())
}

} // verus!
