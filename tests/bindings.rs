use rindexer_bindings::abi::{
    extract_event_names_and_signatures_from_abi, filter_abi_items, format_event_signature, ABIInput,
    ABIItem, EventInfo,
};
use rindexer_bindings::assembly::{
    generate_csv_instance, generate_event_callback_structs_code, generate_event_bindings, generate_event_handlers, generate_structs,
    get_abi_items,
};
use rindexer_bindings::bindings::{
    abigen_contract_file_name, abigen_contract_mod_name, abigen_contract_name, build_contract_fn,
    build_get_provider_fn, generate_contract_type_fn_code, generate_event_enums_code,
    generate_decoder_match_arms_code, generate_event_names_match_arms_code, generate_event_type_name,
    generate_indexed_vec_string, generate_register_match_arms_code,
    generate_topic_ids_match_arms_code, network_provider_fn_name_by_name,
};
use rindexer_bindings::config::{
    Contract, ContractDetails, CsvDetails, FilterDetails, IndexingContractSetup, Storage,
};
use rindexer_bindings::naming::camel_to_snake;
use rindexer_bindings::projection::{
    generate_abi_name_properties, GenerateAbiNamePropertiesResult, GenerateAbiPropertiesType,
};
use rindexer_bindings::sink::{
    csv_file_path, csv_headers, event_sink_code, generate_columns_names_only, insert_statement,
};
use rindexer_bindings::text::{escape_quotes, generate_injected_param, join, to_decimal};
use rindexer_bindings::topic::{compute_topic_id, event_topic_id, to_hex};
use rindexer_bindings::types::{solidity_type_to_db_type, solidity_type_to_ethereum_sql_type};

const TRANSFER_TOPIC: &str = "0xddf252ad1be2c89b69c2b068fc378daa952ba7f163c4a11628f55a4df523b3ef";

fn leaf(name: &str, ty: &str) -> ABIInput {
    ABIInput { indexed: Some(false), name: name.to_string(), type_: ty.to_string(), components: None }
}

fn record(name: &str, ty: &str, children: Vec<ABIInput>) -> ABIInput {
    ABIInput { indexed: Some(false), name: name.to_string(), type_: ty.to_string(), components: Some(children) }
}

fn item(kind: &str, name: &str, inputs: Vec<ABIInput>) -> ABIItem {
    ABIItem { inputs, name: name.to_string(), type_: kind.to_string() }
}

fn transfer() -> ABIItem {
    item("event", "Transfer", vec![leaf("from", "address"), leaf("to", "address"), leaf("value", "uint256")])
}

fn approval() -> ABIItem {
    item("event", "Approval", vec![leaf("owner", "address"), leaf("spender", "address"), leaf("value", "uint256")])
}

fn values(v: &[GenerateAbiNamePropertiesResult]) -> Vec<String> {
    v.iter().map(|p| p.value.clone()).collect()
}

fn contract(details: Vec<ContractDetails>) -> Contract {
    Contract {
        name: "ERC20Token".to_string(),
        details,
        abi: "./abis/erc20.json".to_string(),
        include_events: None,
        reorg_safe_distance: false,
        generate_csv: true,
    }
}

fn address_detail(network: &str, address: &str) -> ContractDetails {
    ContractDetails {
        network: network.to_string(),
        setup: IndexingContractSetup::Address(address.to_string()),
        start_block: Some(100),
        end_block: None,
        polling_every: None,
    }
}

fn filter_detail(network: &str, event: &str) -> ContractDetails {
    ContractDetails {
        network: network.to_string(),
        setup: IndexingContractSetup::Filter(FilterDetails {
            event_name: event.to_string(),
            indexed_1: Some(vec!["0xabc".to_string()]),
            indexed_2: None,
            indexed_3: None,
        }),
        start_block: None,
        end_block: Some(200),
        polling_every: Some(500),
    }
}

fn storage(postgres: bool, csv: bool) -> Storage {
    Storage { postgres, csv: if csv { Some(CsvDetails { path: "./data".to_string() }) } else { None } }
}

#[test]
fn transfer_signature_and_topic() {
    let events = extract_event_names_and_signatures_from_abi(vec![transfer()]);
    assert_eq!(events.len(), 1);
    assert_eq!(events[0].signature, "address,address,uint256");
    assert_eq!(events[0].struct_result, "TransferResult");
    assert_eq!(events[0].struct_data, "TransferData");
    assert_eq!(event_topic_id(&events[0]), TRANSFER_TOPIC);
}

#[test]
fn topic_id_is_prefixed_hex_of_64_digits() {
    let info = EventInfo::new(approval(), "address,address,uint256".to_string());
    let id = event_topic_id(&info);
    assert_eq!(id, "0x8c5be1e5ebec7d5bd14f71427d1e84f3dd0314c0f7b2291e5b200ac8c7c3b925");
    assert_eq!(id.len(), 66);
    assert!(id[2..].chars().all(|c| c.is_ascii_hexdigit() && !c.is_ascii_uppercase()));
}

#[test]
fn compute_topic_id_hashes_its_argument() {
    let h = compute_topic_id("Transfer(address,address,uint256)");
    assert_eq!(h, &TRANSFER_TOPIC[2..]);
    assert_ne!(h, "Transfer(address,address,uint256)");
}

#[test]
fn signature_is_deterministic() {
    let it = item(
        "event",
        "Swap",
        vec![record("data", "tuple", vec![leaf("amount", "uint256"), leaf("sender", "address")]), leaf("ok", "bool")],
    );
    assert_eq!(format_event_signature(&it), format_event_signature(&it));
    assert_eq!(format_event_signature(&it), "(uint256,address),bool");
}

#[test]
fn tuple_array_keeps_its_suffix() {
    let it = item(
        "event",
        "Batch",
        vec![record("orders", "tuple[]", vec![leaf("id", "uint64"), record("inner", "tuple", vec![leaf("x", "bytes32")])])],
    );
    assert_eq!(format_event_signature(&it), "(uint64,(bytes32))[]");
    let none = item("event", "Ping", vec![]);
    assert_eq!(format_event_signature(&none), "");
}

#[test]
fn record_typed_columns() {
    let inputs = vec![record("data", "tuple", vec![leaf("amount", "uint256"), leaf("sender", "address")])];
    let props = generate_abi_name_properties(&inputs, &GenerateAbiPropertiesType::PostgresWithDataTypes, None);
    assert_eq!(values(&props), vec!["\"data_amount\" VARCHAR(78)", "\"data_sender\" CHAR(42)"]);
    assert_eq!(props[0].abi_type, "uint256");
    assert_eq!(props[0].ethereum_sql_type_wrapper.as_deref(), Some("EthereumSqlTypeWrapper::U256"));
    assert_eq!(props[1].ethereum_sql_type_wrapper.as_deref(), Some("EthereumSqlTypeWrapper::Address"));
}

#[test]
fn nested_paths_keep_every_ancestor() {
    let inputs = vec![
        leaf("tokenId", "uint256"),
        record("outer", "tuple", vec![record("innerPart", "tuple", vec![leaf("leafValue", "bool")])]),
    ];
    let cols = generate_abi_name_properties(&inputs, &GenerateAbiPropertiesType::CsvHeaderNames, None);
    assert_eq!(values(&cols), vec!["\"token_id\"", "\"outer_inner_part_leaf_value\""]);
    let obj = generate_abi_name_properties(&inputs, &GenerateAbiPropertiesType::Object, None);
    assert_eq!(values(&obj), vec!["tokenId", "outer.innerPart.leafValue"]);
    let pre = generate_abi_name_properties(&inputs, &GenerateAbiPropertiesType::Object, Some("x"));
    assert_eq!(values(&pre), vec!["x.tokenId", "x.outer.innerPart.leafValue"]);
}

#[test]
fn leaf_count_is_the_same_for_every_kind() {
    let inputs = vec![
        leaf("a", "uint8"),
        record("b", "tuple", vec![leaf("c", "address"), record("d", "tuple", vec![leaf("e", "bool"), leaf("f", "string")])]),
        record("g", "tuple", vec![]),
    ];
    for kind in [
        GenerateAbiPropertiesType::PostgresWithDataTypes,
        GenerateAbiPropertiesType::PostgresColumnsNamesOnly,
        GenerateAbiPropertiesType::CsvHeaderNames,
        GenerateAbiPropertiesType::Object,
    ] {
        assert_eq!(generate_abi_name_properties(&inputs, &kind, None).len(), 4);
    }
}

#[test]
fn bare_and_object_names_agree_when_stripped() {
    let inputs = vec![leaf("from", "address"), record("data", "tuple", vec![leaf("amount", "uint256")])];
    let strip = |s: &str| s.chars().filter(|c| !matches!(c, '"' | '_' | '.')).collect::<String>();
    let bare = generate_abi_name_properties(&inputs, &GenerateAbiPropertiesType::PostgresColumnsNamesOnly, None);
    let obj = generate_abi_name_properties(&inputs, &GenerateAbiPropertiesType::Object, None);
    let a: Vec<String> = bare.iter().map(|p| strip(&p.value)).collect();
    let b: Vec<String> = obj.iter().map(|p| strip(&p.value)).collect();
    assert_eq!(a, b);
    assert_eq!(a, vec!["from", "dataamount"]);
}

#[test]
fn csv_only_storage_writes_no_insert() {
    let info = EventInfo::new(transfer(), "address,address,uint256".to_string());
    let code = event_sink_code("MyIndexer", "ERC20Token", &info, &storage(false, true));
    assert_eq!(code.postgres_write, "");
    assert!(code.csv_write.starts_with("context.csv.append(vec!["));
    assert!(code.csv_write.contains("format!(\"{:?}\", result.event_data.from,),"));
    assert!(code.csv_write.contains("result.event_data.value.to_string(),"));
    let both = event_sink_code("MyIndexer", "ERC20Token", &info, &storage(true, false));
    assert_eq!(both.csv_write, "");
    assert!(both.postgres_write.starts_with("context.database.execute(\"INSERT INTO my_indexer_erc20_token.transfer"));
}

#[test]
fn allow_list_keeps_listed_events() {
    let other = item("function", "balanceOf", vec![leaf("owner", "address")]);
    let kept = filter_abi_items(vec![transfer(), approval(), other], &Some(vec!["Transfer".to_string()]));
    assert_eq!(kept.len(), 2);
    let events = extract_event_names_and_signatures_from_abi(kept);
    assert_eq!(events.len(), 1);
    assert_eq!(events[0].name, "Transfer");
    let all = filter_abi_items(vec![transfer(), approval()], &None);
    assert_eq!(all.len(), 2);
}

#[test]
fn filter_setups_narrow_to_their_events() {
    let mut c = contract(vec![filter_detail("mainnet", "Approval")]);
    c.include_events = None;
    let other = item("function", "balanceOf", vec![]);
    let items = get_abi_items(&c, vec![transfer(), approval(), other], true);
    assert_eq!(items.len(), 1);
    assert_eq!(items[0].name, "Approval");
}

#[test]
fn snake_case_names() {
    assert_eq!(camel_to_snake("ERC20Token"), "erc20_token");
    assert_eq!(camel_to_snake("tokenId"), "token_id");
    assert_eq!(camel_to_snake("RindexerERC20TokenGen"), "rindexer_erc20_token_gen");
    assert_eq!(camel_to_snake(""), "");
    assert_eq!(camel_to_snake("already_snake"), "already_snake");
}

#[test]
fn type_mapping_table() {
    assert_eq!(solidity_type_to_db_type("address"), "CHAR(42)");
    assert_eq!(solidity_type_to_db_type("uint256"), "VARCHAR(78)");
    assert_eq!(solidity_type_to_db_type("uint32"), "NUMERIC");
    assert_eq!(solidity_type_to_db_type("bytes32"), "BYTEA");
    assert_eq!(solidity_type_to_db_type("address[]"), "CHAR(42)[]");
    assert_eq!(solidity_type_to_db_type("bool"), "BOOLEAN");
    assert_eq!(solidity_type_to_ethereum_sql_type("bytes"), Some("EthereumSqlTypeWrapper::Bytes".to_string()));
    assert_eq!(solidity_type_to_ethereum_sql_type("uint8[]"), None);
}

#[test]
fn insert_statement_has_one_placeholder_per_column() {
    let info = EventInfo::new(transfer(), "address,address,uint256".to_string());
    assert_eq!(
        insert_statement("MyIndexer", "ERC20Token", &info),
        "INSERT INTO my_indexer_erc20_token.transfer (contract_address, \"from\", \"to\", \"value\", \"tx_hash\", \"block_number\", \"block_hash\") VALUES($1, $2, $3, $4, $5, $6, $7)"
    );
    assert_eq!(generate_injected_param(0), "VALUES()");
    assert_eq!(generate_injected_param(12), "VALUES($1, $2, $3, $4, $5, $6, $7, $8, $9, $10, $11, $12)");
    assert_eq!(generate_columns_names_only(&info.inputs), vec!["\"from\"", "\"to\"", "\"value\""]);
}

#[test]
fn fixed_bytes_are_widened() {
    let info = EventInfo::new(item("event", "Hash", vec![leaf("h", "bytes32"), leaf("b", "bytes")]), String::new());
    let code = event_sink_code("I", "C", &info, &storage(true, true));
    assert!(code.postgres_write.contains("&EthereumSqlTypeWrapper::Bytes(&result.event_data.h.into()),"));
    assert!(code.postgres_write.contains("&EthereumSqlTypeWrapper::Bytes(&result.event_data.b),"));
    assert!(code.csv_write.contains("result.event_data.h.iter().map(|byte| format!(\"{:02x}\", byte))"));
}

#[test]
fn csv_header_and_path() {
    let info = EventInfo::new(transfer(), String::new());
    assert_eq!(
        csv_headers(&info),
        vec!["\"contract_address\"", "\"from\"", "\"to\"", "\"value\"", "\"tx_hash\"", "\"block_number\"", "\"block_hash\""]
    );
    assert_eq!(csv_file_path("./data", "ERC20Token", "Transfer"), "./data/ERC20Token/erc20token-transfer.csv");
    assert_eq!(csv_file_path("./d", "Äpfel", "ÜBER"), "./d/Äpfel/äpfel-über.csv");
    let c = contract(vec![]);
    let code = generate_csv_instance(&c, &info, &Some(CsvDetails { path: "./data".to_string() }));
    assert!(code.contains("AsyncCsvAppender::new(\"./data/ERC20Token/erc20token-transfer.csv\".to_string())"));
    assert!(code.contains("vec![\"contract_address\".into(), \"from\".into(), \"to\".into(), \"value\".into(), \"tx_hash\".into(), \"block_number\".into(), \"block_hash\".into()]"));
    let mut off = contract(vec![]);
    off.generate_csv = false;
    assert_eq!(generate_csv_instance(&off, &info, &None), "let csv = AsyncCsvAppender::new(\"./generated_csv\".to_string());");
}

#[test]
fn hex_rendering() {
    assert_eq!(to_hex(&[0x00, 0x0f, 0xa0, 0xff]), "000fa0ff");
    assert_eq!(to_hex(&[]), "");
}

#[test]
fn contract_names() {
    let c = contract(vec![]);
    assert_eq!(abigen_contract_name(&c), "RindexerERC20TokenGen");
    assert_eq!(abigen_contract_mod_name(&c), "rindexer_erc20_token_gen");
    assert_eq!(abigen_contract_file_name(&c), "erc20_token_abi_gen");
    assert_eq!(generate_event_type_name("ERC20Token"), "ERC20TokenEventType");
}

#[test]
fn dispatch_arms() {
    let events = extract_event_names_and_signatures_from_abi(vec![transfer(), approval()]);
    assert_eq!(generate_event_enums_code(&events), "Transfer(TransferEvent<TExtensions>),\nApproval(ApprovalEvent<TExtensions>),");
    assert_eq!(
        generate_event_names_match_arms_code("T", &events),
        "T::Transfer(_) => \"Transfer\",\nT::Approval(_) => \"Approval\","
    );
    let topics = generate_topic_ids_match_arms_code("T", &events);
    assert!(topics.starts_with(&format!("T::Transfer(_) => \"{}\",\n", TRANSFER_TOPIC)));
}

#[test]
fn network_accessors() {
    assert_eq!(network_provider_fn_name_by_name("Mainnet"), "get_mainnet_provider");
    let p = build_get_provider_fn(vec!["mainnet".to_string(), "base".to_string()]);
    assert!(p.contains("if network == \"mainnet\" {\n        return super::super::super::networks::get_mainnet_provider();\n    } else \n    if network == \"base\""));
    assert!(p.ends_with("panic!(\"Network not supported\")\n    }\n}"));
    let details = vec![address_detail("mainnet", "0x1234"), filter_detail("base", "Transfer")];
    let f = build_contract_fn(&details, "Gen");
    assert!(f.contains("    if network == \"mainnet\" {\n        let address: Address = \"0x1234\""));
    assert!(f.contains("    else if network == \"base\" {\n        let address: Address = \"0x0000000000000000000000000000000000000000\""));
}

#[test]
fn contract_information_literal() {
    let mut c = contract(vec![address_detail("mainnet", "0x1234"), filter_detail("base", "Transfer")]);
    c.include_events = Some(vec!["Transfer".to_string()]);
    let code = generate_contract_type_fn_code(&c);
    assert!(code.contains("name: \"ERC20Token\".to_string(),"));
    assert!(code.contains("ContractDetails::new_with_address(\n    \"mainnet\".to_string(),\n    \"0x1234\".to_string(),\n    Some(100.into()),\n    None,\n    None,\n),"));
    assert!(code.contains("indexed_1: Some(vec![\"0xabc\".to_string()]),\n        indexed_2: None,"));
    assert!(code.contains("None,\n    Some(200.into()),\n    Some(500),"));
    assert!(code.contains("include_events: Some(vec![\"Transfer\".to_string()]),"));
    assert!(code.contains("generate_csv: true,"));
    assert_eq!(generate_indexed_vec_string(&None), "None");
    assert_eq!(
        generate_indexed_vec_string(&Some(vec!["a".to_string(), "b".to_string()])),
        "Some(vec![\"a\".to_string(), \"b\".to_string()])"
    );
}

#[test]
fn record_structs_cover_every_event() {
    let c = contract(vec![]);
    let s = generate_structs(&c, &vec![transfer(), item("function", "f", vec![])]);
    assert!(s.contains("pub type TransferData = rindexer_erc20_token_gen::TransferFilter;"));
    assert!(s.contains("pub struct TransferResult {"));
    assert!(!s.contains("fData"));
}

#[test]
fn bindings_file_lists_each_event_everywhere() {
    let c = contract(vec![address_detail("mainnet", "0x1234")]);
    let code = generate_event_bindings("MyIndexer", &c, false, &storage(true, true), vec![transfer(), approval()]);
    for needle in [
        "pub enum ERC20TokenEventType<TExtensions>",
        "ERC20TokenEventType::Transfer(_) => \"0xddf252ad1be2c89b69c2b068fc378daa952ba7f163c4a11628f55a4df523b3ef\",",
        "ERC20TokenEventType::Approval(_) => \"Approval\",",
        "pub struct TransferEvent<TExtensions>",
        "contract.decode_event::<ApprovalData>(\"Approval\", topics, data)",
        "indexer_name: \"MyIndexer\",",
        "PostgresClient,",
    ] {
        assert!(code.contains(needle), "missing {}", needle);
    }
}

#[test]
fn handlers_file_registers_each_event() {
    let c = contract(vec![address_detail("mainnet", "0x1234")]);
    let code = generate_event_handlers("MyIndexer", false, &c, &storage(false, true), vec![transfer(), approval()]);
    assert!(code.contains("use super::super::super::typings::my_indexer::events::erc20_token::{no_extensions, ERC20TokenEventType,TransferEvent,ApprovalEvent};"));
    assert!(code.contains("async fn transfer_handler(registry: &mut EventCallbackRegistry)"));
    assert!(code.contains("\n    approval_handler(registry).await;\n"));
    assert!(!code.contains("context.database.execute"));
    assert!(code.ends_with("}"));
}

#[test]
fn placeholders_match_columns() {
    for n in [0u128, 1, 4, 9, 10, 11, 57] {
        let p = generate_injected_param(n);
        assert_eq!(p.matches('$').count() as u128, n);
    }
    assert_eq!(generate_injected_param(1), "VALUES($1)");
    assert_eq!(to_decimal(0), "0");
    assert_eq!(to_decimal(1000), "1000");
}

#[test]
fn text_helpers() {
    assert_eq!(escape_quotes("a \"b\" c"), "a \\\"b\\\" c");
    assert_eq!(join(&vec!["a".to_string(), "b".to_string(), "c".to_string()], ", "), "a, b, c");
    assert_eq!(join(&vec![], ", "), "");
}

#[test]
fn register_and_decoder_arms() {
    let events = extract_event_names_and_signatures_from_abi(vec![transfer()]);
    let reg = generate_register_match_arms_code("T", &events);
    assert!(reg.starts_with("\nT::Transfer(event) => {\n    let event = Arc::new(event);"));
    let dec = generate_decoder_match_arms_code("T", &events);
    assert!(dec.contains("contract.decode_event::<TransferData>(\"Transfer\", topics, data)"));
}

#[test]
fn callback_structs_follow_storage() {
    let events = extract_event_names_and_signatures_from_abi(vec![transfer(), approval()]);
    let c = contract(vec![]);
    let code = generate_event_callback_structs_code(&events, &c, &storage(true, true));
    assert!(code.contains("type TransferEventCallbackType<TExtensions> = Arc<dyn Fn(&Vec<TransferResult>,"));
    assert!(code.contains("pub struct ApprovalEvent<TExtensions>"));
    assert!(code.contains("database: Arc::new(PostgresClient::new().await.unwrap()),"));
    assert!(code.contains("panic!(\"ApprovalEvent: Unexpected data type - expected: ApprovalData\")"));
    let no_db = generate_event_callback_structs_code(&events, &c, &storage(false, true));
    assert!(!no_db.contains("PostgresClient"));
}

#[test]
fn provider_accessor_has_one_branch_per_distinct_network() {
    let p = build_get_provider_fn(vec!["a".to_string(), "b".to_string(), "a".to_string()]);
    assert_eq!(p.matches("if network == \"a\"").count(), 1);
    assert_eq!(p.matches("if network == \"b\"").count(), 1);
    assert!(p.find("\"a\"").unwrap() < p.find("\"b\"").unwrap());
    let c = contract(vec![address_detail("mainnet", "0x1"), filter_detail("mainnet", "Transfer")]);
    let code = generate_event_bindings("I", &c, false, &storage(false, true), vec![transfer()]);
    assert_eq!(code.matches("return super::super::super::networks::get_mainnet_provider();").count(), 1);
}

#[test]
fn deep_copy_keeps_nested_fields() {
    let r = record("data", "tuple[]", vec![leaf("amount", "uint256"), record("inner", "tuple", vec![leaf("x", "bool")])]);
    let c = r.clone();
    assert_eq!(c.name, "data");
    assert_eq!(c.type_, "tuple[]");
    let it = item("event", "E", vec![c]);
    assert_eq!(format_event_signature(&it), "(uint256,(bool))[]");
    assert_eq!(GenerateAbiPropertiesType::Object, GenerateAbiPropertiesType::Object);
    assert_ne!(GenerateAbiPropertiesType::Object, GenerateAbiPropertiesType::CsvHeaderNames);
}
