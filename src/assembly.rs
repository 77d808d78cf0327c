use vstd::prelude::*;
use vstd::string::*;
use crate::abi::{
    extract_event_names_and_signatures_from_abi, filter_abi_items, events_of, is_event, kept_items,
    select_items, signature_of, describes, ABIItem, EventInfo,
};
use crate::config::{Contract, ContractDetails, CsvDetails, IndexingContractSetup, Storage};
use crate::naming::{camel_to_snake, snake_of, str_eq};
use crate::sink::{csv_file_of, csv_file_path, csv_headers, csv_headers_of, event_sink_code, insert_sql_of, object_leaves, postgres_write_of, csv_write_of};
use crate::bindings::{
    abigen_contract_file_name, abigen_contract_mod_name, abigen_contract_name, abigen_name_of,
    arms_of, build_contract_fn, build_get_provider_fn, contract_fn_of, contract_type_fn_of,
    enum_variant_of, event_names, generate_contract_type_fn_code, generate_decoder_match_arms_code,
    generate_event_enums_code, generate_event_names_match_arms_code, generate_event_type_name,
    generate_register_match_arms_code, generate_topic_ids_match_arms_code, provider_fn_of, topic_arm_of,
    ArmKind,
};
use crate::text::{distinct, join, joined, string_views};

verus! {

/// The statement that opens an event's flat-file appender: with generation of
/// flat files on, it names the event's own file and writes the header row
/// when the file does not exist yet; otherwise it opens the base path.
pub open spec fn csv_instance_of(c: Contract, e: EventInfo, csv: Option<CsvDetails>) -> Seq<char> {
    if !c.generate_csv {
        "let csv = AsyncCsvAppender::new(\""@ + (match csv {
            Some(d) => d.path@,
            None => "./generated_csv"@,
        }) + "\".to_string());"@
    } else {
        let p = csv_file_of(csv->Some_0.path@, c.name@, e.name@);
        "\nlet csv = AsyncCsvAppender::new(\""@ + p + "\".to_string());\nif !Path::new(\""@ + p
            + "\").exists() {\n    csv.append_header(vec!["@ + joined(csv_headers_of(e.inputs@), ".into(), "@)
            + ".into()])\n        .await\n        .unwrap();\n}\n"@
    }
}

/// Builds the statement that opens an event's flat-file appender. The folder
/// of the file is `csv_folder` of the base path and the contract name; making
/// it is left to the caller.
pub fn generate_csv_instance(contract: &Contract, event_info: &EventInfo, csv: &Option<CsvDetails>) -> (r: String)
    requires
        contract.generate_csv ==> csv is Some,
    ensures
        r@ == csv_instance_of(*contract, *event_info, *csv),
{
    if !contract.generate_csv {
        let path = match csv {
            Some(d) => d.path.as_str(),
            None => "./generated_csv",
        };
        return String::from_str("let csv = AsyncCsvAppender::new(\"").concat(path).concat("\".to_string());");
    }
    let base = match csv {
        Some(d) => d.path.as_str(),
        None => "",
    };
    let p = csv_file_path(base, contract.name.as_str(), event_info.name.as_str());
    let headers = csv_headers(event_info);
    let h = join(&headers, ".into(), ");
    String::from_str("\nlet csv = AsyncCsvAppender::new(\"").concat(p.as_str()).concat(
        "\".to_string());\nif !Path::new(\"",
    ).concat(p.as_str()).concat("\").exists() {\n    csv.append_header(vec![").concat(h.as_str()).concat(
        ".into()])\n        .await\n        .unwrap();\n}\n",
    )
}

/// The context field that holds the relational storage client, when enabled.
pub open spec fn database_field_of(enabled: bool) -> Seq<char> {
    if enabled {
        "database: Arc::new(PostgresClient::new().await.unwrap()),"@
    } else {
        Seq::empty()
    }
}

pub open spec fn callback_head_of(n: Seq<char>, sr: Seq<char>) -> Seq<char> {
    "\ntype "@ + n + "EventCallbackType<TExtensions> = Arc<dyn Fn(&Vec<"@ + sr
        + ">, Arc<EventContext<TExtensions>>) -> BoxFuture<'_, ()> + Send + Sync>;\n\npub struct "@ + n
        + "Event<TExtensions> where TExtensions: Send + Sync {\n    callback: "@ + n
        + "EventCallbackType<TExtensions>,\n    context: Arc<EventContext<TExtensions>>,\n}\n\nimpl<TExtensions> "@
        + n + "Event<TExtensions> where TExtensions: Send + Sync {\n    pub async fn new(\n        callback: "@ + n
        + "EventCallbackType<TExtensions>,\n        extensions: TExtensions,\n    ) -> Self {\n        "@
}

pub open spec fn callback_mid_of(db: Seq<char>) -> Seq<char> {
    "\n\n        Self {\n            callback,\n            context: Arc::new(EventContext {\n                "@ + db
        + "\n                csv: Arc::new(csv),\n                extensions: Arc::new(extensions),\n            }),\n        }\n    }\n}\n\n"@
}

pub open spec fn callback_call_of(n: Seq<char>, sr: Seq<char>, sd: Seq<char>) -> Seq<char> {
    "#[async_trait]\nimpl<TExtensions> EventCallback for "@ + n
        + "Event<TExtensions> where TExtensions: Send + Sync {\n    async fn call(&self, events: Vec<EventResult>) {\n        let events_len = events.len();\n\n        let result: Vec<"@
        + sr + "> = events.into_iter()\n            .filter_map(|item| {\n                item.decoded_data.downcast::<"@ + sd
        + ">()\n                    .ok()\n                    .map(|arc| "@ + sr
        + " {\n                        event_data: (*arc).clone(),\n                        tx_information: item.tx_information\n                    })\n            })\n            .collect();\n\n        if result.len() == events_len {\n            (self.callback)(&result, self.context.clone()).await;\n        } else {\n            panic!(\""@
        + n + "Event: Unexpected data type - expected: "@ + sd + "\")\n        }\n    }\n}\n"@
}

/// The callback type, struct and dispatch impl of one event.
pub open spec fn callback_struct_of(e: EventInfo, db: bool, csv_code: Seq<char>) -> Seq<char> {
    callback_head_of(e.name@, e.struct_result@) + csv_code + callback_mid_of(database_field_of(db))
        + callback_call_of(e.name@, e.struct_result@, e.struct_data@)
}

fn callback_struct(e: &EventInfo, db: bool, csv_code: &str) -> (r: String)
    ensures
        r@ == callback_struct_of(*e, db, csv_code@),
{
    let n = e.name.as_str();
    let sr = e.struct_result.as_str();
    let sd = e.struct_data.as_str();
    let head = String::from_str("\ntype ").concat(n).concat("EventCallbackType<TExtensions> = Arc<dyn Fn(&Vec<").concat(
        sr,
    ).concat(">, Arc<EventContext<TExtensions>>) -> BoxFuture<'_, ()> + Send + Sync>;\n\npub struct ").concat(n).concat(
        "Event<TExtensions> where TExtensions: Send + Sync {\n    callback: ",
    ).concat(n).concat(
        "EventCallbackType<TExtensions>,\n    context: Arc<EventContext<TExtensions>>,\n}\n\nimpl<TExtensions> ",
    ).concat(n).concat("Event<TExtensions> where TExtensions: Send + Sync {\n    pub async fn new(\n        callback: ").concat(
        n,
    ).concat("EventCallbackType<TExtensions>,\n        extensions: TExtensions,\n    ) -> Self {\n        ");
    let dbf = if db {
        "database: Arc::new(PostgresClient::new().await.unwrap()),"
    } else {
        ""
    };
    proof {
        reveal_strlit("");
    }
    let mid = String::from_str(
        "\n\n        Self {\n            callback,\n            context: Arc::new(EventContext {\n                ",
    ).concat(dbf).concat(
        "\n                csv: Arc::new(csv),\n                extensions: Arc::new(extensions),\n            }),\n        }\n    }\n}\n\n",
    );
    let call = String::from_str("#[async_trait]\nimpl<TExtensions> EventCallback for ").concat(n).concat(
        "Event<TExtensions> where TExtensions: Send + Sync {\n    async fn call(&self, events: Vec<EventResult>) {\n        let events_len = events.len();\n\n        let result: Vec<",
    ).concat(sr).concat(
        "> = events.into_iter()\n            .filter_map(|item| {\n                item.decoded_data.downcast::<",
    ).concat(sd).concat(">()\n                    .ok()\n                    .map(|arc| ").concat(sr).concat(
        " {\n                        event_data: (*arc).clone(),\n                        tx_information: item.tx_information\n                    })\n            })\n            .collect();\n\n        if result.len() == events_len {\n            (self.callback)(&result, self.context.clone()).await;\n        } else {\n            panic!(\"",
    ).concat(n).concat("Event: Unexpected data type - expected: ").concat(sd).concat("\")\n        }\n    }\n}\n");
    head.concat(csv_code).concat(mid.as_str()).concat(call.as_str())
}

/// The callback structs of all events, one after another, newline-separated.
pub open spec fn callback_structs_of(events: Seq<EventInfo>, c: Contract, storage: Storage) -> Seq<char> {
    joined(
        events.map_values(|e: EventInfo| callback_struct_of(e, storage.postgres, csv_instance_of(c, e, storage.csv))),
        "\n"@,
    )
}

/// Builds the callback type, struct and dispatch impl of every event.
pub fn generate_event_callback_structs_code(event_info: &Vec<EventInfo>, contract: &Contract, storage: &Storage) -> (r: String)
    requires
        contract.generate_csv ==> storage.csv is Some,
    ensures
        r@ == callback_structs_of(event_info@, *contract, *storage),
{
    let databases_enabled = storage.postgres_enabled();
    let mut parts: Vec<String> = Vec::new();
    let mut i: usize = 0;
    while i < event_info.len()
        invariant
            i <= event_info@.len(),
            contract.generate_csv ==> storage.csv is Some,
            databases_enabled == storage.postgres,
            string_views(parts@) == event_info@.subrange(0, i as int).map_values(
                |e: EventInfo| callback_struct_of(e, storage.postgres, csv_instance_of(*contract, e, storage.csv)),
            ),
        decreases event_info@.len() - i,
    {
        let e = &event_info[i];
        let csv_code = generate_csv_instance(contract, e, &storage.csv);
        let ghost before = parts@;
        parts.push(callback_struct(e, databases_enabled, csv_code.as_str()));
        proof {
            let x = callback_struct_of(*e, storage.postgres, csv_instance_of(*contract, *e, storage.csv));
            assert(string_views(parts@) =~= string_views(before).push(x));
            assert(event_info@.subrange(0, i + 1).map_values(
                |e: EventInfo| callback_struct_of(e, storage.postgres, csv_instance_of(*contract, e, storage.csv)),
            ) =~= event_info@.subrange(0, i as int).map_values(
                |e: EventInfo| callback_struct_of(e, storage.postgres, csv_instance_of(*contract, e, storage.csv)),
            ).push(x));
        }
        i = i + 1;
    }
    assert(event_info@.subrange(0, event_info@.len() as int) =~= event_info@);
    join(&parts, "\n")
}

/// The record types of one event: its data alias and its result struct.
pub open spec fn record_struct_of(name: Seq<char>, module: Seq<char>) -> Seq<char> {
    "\npub type "@ + name + "Data = "@ + module + "::"@ + name + "Filter;\n\n#[derive(Debug)]\npub struct "@ + name
        + "Result {\n    pub event_data: "@ + name + "Data,\n    pub tx_information: TxInformation\n}\n"@
}

/// The record types of every event entry of `s`, in order.
pub open spec fn record_structs_of(s: Seq<ABIItem>, module: Seq<char>) -> Seq<char>
    decreases s.len(),
{
    if s.len() == 0 {
        Seq::empty()
    } else if is_event(s.last()) {
        record_structs_of(s.drop_last(), module) + record_struct_of(s.last().name@, module)
    } else {
        record_structs_of(s.drop_last(), module)
    }
}

/// Builds the record types of every event of the contract's schema.
pub fn generate_structs(contract: &Contract, abi_items: &Vec<ABIItem>) -> (r: String)
    ensures
        r@ == record_structs_of(abi_items@, snake_of(abigen_name_of(contract.name@))),
{
    let module = abigen_contract_mod_name(contract);
    let mut structs = String::new();
    let mut i: usize = 0;
    while i < abi_items.len()
        invariant
            i <= abi_items@.len(),
            module@ == snake_of(abigen_name_of(contract.name@)),
            structs@ == record_structs_of(abi_items@.subrange(0, i as int), module@),
        decreases abi_items@.len() - i,
    {
        let item = &abi_items[i];
        if str_eq(item.type_.as_str(), "event") {
            let n = item.name.as_str();
            let m = module.as_str();
            let one = String::from_str("\npub type ").concat(n).concat("Data = ").concat(m).concat("::").concat(n).concat(
                "Filter;\n\n#[derive(Debug)]\npub struct ",
            ).concat(n).concat("Result {\n    pub event_data: ").concat(n).concat(
                "Data,\n    pub tx_information: TxInformation\n}\n",
            );
            structs.append(one.as_str());
        }
        proof {
            let next = abi_items@.subrange(0, i + 1);
            assert(next.drop_last() =~= abi_items@.subrange(0, i as int));
            assert(next.last() == *item);
        }
        i = i + 1;
    }
    assert(abi_items@.subrange(0, abi_items@.len() as int) =~= abi_items@);
    structs
}

/// The event names of the filter-based setups among `ds`, in order.
pub open spec fn filter_names_of(ds: Seq<ContractDetails>) -> Seq<Seq<char>>
    decreases ds.len(),
{
    if ds.len() == 0 {
        Seq::empty()
    } else {
        match ds.last().setup {
            IndexingContractSetup::Filter(f) => filter_names_of(ds.drop_last()).push(f.event_name@),
            _ => filter_names_of(ds.drop_last()),
        }
    }
}

fn filter_event_names(details: &Vec<ContractDetails>) -> (r: Vec<String>)
    ensures
        string_views(r@) == filter_names_of(details@),
{
    let mut out: Vec<String> = Vec::new();
    let mut i: usize = 0;
    while i < details.len()
        invariant
            i <= details@.len(),
            string_views(out@) == filter_names_of(details@.subrange(0, i as int)),
        decreases details@.len() - i,
    {
        let d = &details[i];
        let ghost before = out@;
        match d.indexing_contract_setup() {
            IndexingContractSetup::Filter(f) => {
                out.push(f.event_name.clone());
                assert(string_views(out@) =~= string_views(before).push(f.event_name@));
            },
            _ => {},
        }
        proof {
            let next = details@.subrange(0, i + 1);
            assert(next.drop_last() =~= details@.subrange(0, i as int));
            assert(next.last() == *d);
        }
        i = i + 1;
    }
    assert(details@.subrange(0, details@.len() as int) =~= details@);
    out
}

/// The working set of schema entries: narrowed by the contract's allow-list
/// and, for a filter-based contract, further to the events that its filter
/// setups name.
pub open spec fn abi_items_of(c: Contract, items: Seq<ABIItem>, is_filter: bool) -> Seq<ABIItem> {
    let a = match c.include_events {
        Some(n) => kept_items(items, string_views(n@), false),
        None => items,
    };
    if is_filter {
        kept_items(a, filter_names_of(c.details@), true)
    } else {
        a
    }
}

/// Narrows a contract's parsed schema to the entries that generation works on.
pub fn get_abi_items(contract: &Contract, abi_items: Vec<ABIItem>, is_filter: bool) -> (r: Vec<ABIItem>)
    ensures
        r@ == abi_items_of(*contract, abi_items@, is_filter),
{
    let items = filter_abi_items(abi_items, &contract.include_events);
    if is_filter {
        let names = filter_event_names(&contract.details);
        select_items(items, &names, true)
    } else {
        items
    }
}

/// The imports and shared declarations that open a contract's bindings.
pub open spec fn bindings_head_of(c: Contract, storage: Storage, structs: Seq<char>) -> Seq<char> {
    "\nuse super::"@ + snake_of(c.name@) + "_abi_gen"@ + "::"@ + snake_of(abigen_name_of(c.name@)) + "::{self, "@
        + abigen_name_of(c.name@)
        + "};\nuse std::{any::Any, sync::Arc};\nuse std::future::Future;\nuse std::pin::Pin;\nuse std::path::Path;\nuse ethers::{providers::{Http, Provider, RetryClient}, abi::Address, types::{Bytes, H256}};\nuse rindexer_core::{\n    async_trait,\n    AsyncCsvAppender,\n    generate_random_id,\n    FutureExt,\n    generator::event_callback_registry::{EventCallbackRegistry, EventInformation, ContractInformation, NetworkContract, EventResult, TxInformation, FilterDetails, FactoryDetails},\n    manifest::yaml::{Contract, ContractDetails},\n    "@
        + (if storage.postgres { "PostgresClient,"@ } else { Seq::empty() }) + "\n};\n\n"@ + structs
        + "\n\ntype BoxFuture<'a, T> = Pin<Box<dyn Future<Output = T> + Send + 'a>>;\n\n#[async_trait]\ntrait EventCallback {\n    async fn call(&self, events: Vec<EventResult>);\n}\n\npub struct EventContext<TExtensions> where TExtensions: Send + Sync {\n    "@
        + (if storage.postgres { "pub database: Arc<PostgresClient>,"@ } else { Seq::empty() })
        + "\n    pub csv: Arc<AsyncCsvAppender>,\n    pub extensions: Arc<TExtensions>,\n}\n\npub struct NoExtensions {}\npub fn no_extensions() -> NoExtensions {\n    NoExtensions {}\n}\n\n"@
}

fn bindings_head(contract: &Contract, storage: &Storage, structs: &str) -> (r: String)
    ensures
        r@ == bindings_head_of(*contract, *storage, structs@),
{
    let client_import = if storage.postgres_enabled() {
        "PostgresClient,"
    } else {
        ""
    };
    let database = if storage.postgres_enabled() {
        "pub database: Arc<PostgresClient>,"
    } else {
        ""
    };
    proof {
        reveal_strlit("");
    }
    let file = abigen_contract_file_name(contract);
    let module = abigen_contract_mod_name(contract);
    let name = abigen_contract_name(contract);
    String::from_str("\nuse super::").concat(file.as_str()).concat("::").concat(module.as_str()).concat("::{self, ").concat(
        name.as_str(),
    ).concat(
        "};\nuse std::{any::Any, sync::Arc};\nuse std::future::Future;\nuse std::pin::Pin;\nuse std::path::Path;\nuse ethers::{providers::{Http, Provider, RetryClient}, abi::Address, types::{Bytes, H256}};\nuse rindexer_core::{\n    async_trait,\n    AsyncCsvAppender,\n    generate_random_id,\n    FutureExt,\n    generator::event_callback_registry::{EventCallbackRegistry, EventInformation, ContractInformation, NetworkContract, EventResult, TxInformation, FilterDetails, FactoryDetails},\n    manifest::yaml::{Contract, ContractDetails},\n    ",
    ).concat(client_import).concat("\n};\n\n").concat(structs).concat(
        "\n\ntype BoxFuture<'a, T> = Pin<Box<dyn Future<Output = T> + Send + 'a>>;\n\n#[async_trait]\ntrait EventCallback {\n    async fn call(&self, events: Vec<EventResult>);\n}\n\npub struct EventContext<TExtensions> where TExtensions: Send + Sync {\n    ",
    ).concat(database).concat(
        "\n    pub csv: Arc<AsyncCsvAppender>,\n    pub extensions: Arc<TExtensions>,\n}\n\npub struct NoExtensions {}\npub fn no_extensions() -> NoExtensions {\n    NoExtensions {}\n}\n\n",
    )
}

pub open spec fn networks_of(ds: Seq<ContractDetails>) -> Seq<Seq<char>> {
    ds.map_values(|d: ContractDetails| d.network@)
}

/// The dispatch type over a contract's events and its lookup functions: topic
/// id, display name, `contract_information()`, the provider and contract
/// accessors, the decoder, and registration.
pub open spec fn dispatch_of(indexer: Seq<char>, c: Contract, events: Seq<EventInfo>) -> Seq<char> {
    let etn = c.name@ + "EventType"@;
    "pub enum "@ + etn + "<TExtensions> where TExtensions: 'static + Send + Sync {\n    "@
        + joined(event_names(events).map_values(|n: Seq<char>| enum_variant_of(n)), "\n"@)
        + "\n}\n\nimpl<TExtensions> "@ + etn
        + "<TExtensions> where TExtensions: 'static + Send + Sync {\n    pub fn topic_id(&self) -> &'static str {\n        match self {\n            "@
        + joined(events.map_values(|e: EventInfo| topic_arm_of(etn, e)), "\n"@)
        + "\n        }\n    }\n\n    pub fn event_name(&self) -> &'static str {\n        match self {\n            "@
        + arms_of(ArmKind::Name, etn, events) + "\n        }\n    }\n\n    "@ + contract_type_fn_of(c) + "\n\n    "@
        + provider_fn_of(distinct(networks_of(c.details@))) + "\n\n    "@ + contract_fn_of(c.details@, abigen_name_of(c.name@))
        + "\n\n    fn decoder(&self, network: &str) -> Arc<dyn Fn(Vec<H256>, Bytes) -> Arc<dyn Any + Send + Sync> + Send + Sync> {\n        let contract = self.contract(network);\n\n        match self {\n            "@
        + arms_of(ArmKind::Decoder, etn, events)
        + "\n        }\n    }\n\n    pub fn register(self, registry: &mut EventCallbackRegistry) {\n        let topic_id = self.topic_id();\n        let event_name = self.event_name();\n        let contract_information = self.contract_information();\n        let contract = ContractInformation {\n            name: contract_information.name,\n            details: contract_information\n                .details\n                .iter()\n                .map(|c| NetworkContract {\n                    id: generate_random_id(10),\n                    network: c.network.clone(),\n                    provider: self.get_provider(&c.network),\n                    decoder: self.decoder(&c.network),\n                    indexing_contract_setup: c.indexing_contract_setup(),\n                    start_block: c.start_block,\n                    end_block: c.end_block,\n                    polling_every: c.polling_every,\n                })\n                .collect(),\n            abi: contract_information.abi,\n            reorg_safe_distance: contract_information.reorg_safe_distance,\n        };\n\n        let callback: Arc<dyn Fn(Vec<EventResult>) -> BoxFuture<'static, ()> + Send + Sync> = match self {\n            "@
        + arms_of(ArmKind::Register, etn, events)
        + "\n        };\n\n        registry.register_event(EventInformation {\n            indexer_name: \""@ + indexer
        + "\",\n            event_name,\n            topic_id,\n            contract,\n            callback,\n        });\n    }\n}\n"@
}

fn network_names(details: &Vec<ContractDetails>) -> (r: Vec<String>)
    ensures
        string_views(r@) == networks_of(details@),
{
    let mut out: Vec<String> = Vec::new();
    let mut i: usize = 0;
    while i < details.len()
        invariant
            i <= details@.len(),
            string_views(out@) == networks_of(details@.subrange(0, i as int)),
        decreases details@.len() - i,
    {
        let ghost before = out@;
        out.push(details[i].network.clone());
        assert(string_views(out@) =~= string_views(before).push(details@[i as int].network@));
        assert(networks_of(details@.subrange(0, i + 1)) =~= networks_of(details@.subrange(0, i as int)).push(
            details@[i as int].network@,
        ));
        i = i + 1;
    }
    assert(details@.subrange(0, details@.len() as int) =~= details@);
    out
}

#[verifier::rlimit(50)]
fn dispatch(indexer_name: &str, contract: &Contract, event_info: &Vec<EventInfo>) -> (r: String)
    ensures
        r@ == dispatch_of(indexer_name@, *contract, event_info@),
{
    let etn = generate_event_type_name(contract.name.as_str());
    let t = etn.as_str();
    let enums = generate_event_enums_code(event_info);
    let topics = generate_topic_ids_match_arms_code(t, event_info);
    let names = generate_event_names_match_arms_code(t, event_info);
    let info = generate_contract_type_fn_code(contract);
    let provider = build_get_provider_fn(network_names(&contract.details));
    let abigen = abigen_contract_name(contract);
    let cfn = build_contract_fn(&contract.details, abigen.as_str());
    let decoders = generate_decoder_match_arms_code(t, event_info);
    let registers = generate_register_match_arms_code(t, event_info);
    String::from_str("pub enum ").concat(t).concat("<TExtensions> where TExtensions: 'static + Send + Sync {\n    ").concat(
        enums.as_str(),
    ).concat("\n}\n\nimpl<TExtensions> ").concat(t).concat(
        "<TExtensions> where TExtensions: 'static + Send + Sync {\n    pub fn topic_id(&self) -> &'static str {\n        match self {\n            ",
    ).concat(topics.as_str()).concat(
        "\n        }\n    }\n\n    pub fn event_name(&self) -> &'static str {\n        match self {\n            ",
    ).concat(names.as_str()).concat("\n        }\n    }\n\n    ").concat(info.as_str()).concat("\n\n    ").concat(
        provider.as_str(),
    ).concat("\n\n    ").concat(cfn.as_str()).concat(
        "\n\n    fn decoder(&self, network: &str) -> Arc<dyn Fn(Vec<H256>, Bytes) -> Arc<dyn Any + Send + Sync> + Send + Sync> {\n        let contract = self.contract(network);\n\n        match self {\n            ",
    ).concat(decoders.as_str()).concat(
        "\n        }\n    }\n\n    pub fn register(self, registry: &mut EventCallbackRegistry) {\n        let topic_id = self.topic_id();\n        let event_name = self.event_name();\n        let contract_information = self.contract_information();\n        let contract = ContractInformation {\n            name: contract_information.name,\n            details: contract_information\n                .details\n                .iter()\n                .map(|c| NetworkContract {\n                    id: generate_random_id(10),\n                    network: c.network.clone(),\n                    provider: self.get_provider(&c.network),\n                    decoder: self.decoder(&c.network),\n                    indexing_contract_setup: c.indexing_contract_setup(),\n                    start_block: c.start_block,\n                    end_block: c.end_block,\n                    polling_every: c.polling_every,\n                })\n                .collect(),\n            abi: contract_information.abi,\n            reorg_safe_distance: contract_information.reorg_safe_distance,\n        };\n\n        let callback: Arc<dyn Fn(Vec<EventResult>) -> BoxFuture<'static, ()> + Send + Sync> = match self {\n            ",
    ).concat(registers.as_str()).concat(
        "\n        };\n\n        registry.register_event(EventInformation {\n            indexer_name: \"",
    ).concat(indexer_name).concat(
        "\",\n            event_name,\n            topic_id,\n            contract,\n            callback,\n        });\n    }\n}\n",
    )
}

/// A contract's full bindings: imports and shared declarations, the record
/// types, one callback struct per event, and the dispatch type with its
/// lookup functions, all kept in step with the same event list.
pub open spec fn bindings_code_of(indexer: Seq<char>, c: Contract, storage: Storage, events: Seq<EventInfo>, structs: Seq<char>) -> Seq<char> {
    bindings_head_of(c, storage, structs) + callback_structs_of(events, c, storage) + "\n\n"@
        + dispatch_of(indexer, c, events)
}

/// Builds a contract's bindings from its described events and the record
/// types of its schema (`generate_structs`).
pub fn generate_event_bindings_code(
    indexer_name: &str,
    contract: &Contract,
    storage: &Storage,
    event_info: Vec<EventInfo>,
    structs: &str,
) -> (r: String)
    requires
        contract.generate_csv ==> storage.csv is Some,
    ensures
        r@ == bindings_code_of(indexer_name@, *contract, *storage, event_info@, structs@),
{
    let head = bindings_head(contract, storage, structs);
    let callbacks = generate_event_callback_structs_code(&event_info, contract, storage);
    let body = dispatch(indexer_name, contract, &event_info);
    head.concat(callbacks.as_str()).concat("\n\n").concat(body.as_str())
}

/// The events that generation works on, described: exactly one per event
/// entry of the working set, in order.
pub open spec fn described_events(evs: Seq<EventInfo>, items: Seq<ABIItem>) -> bool {
    &&& evs.len() == events_of(items).len()
    &&& forall|j: int| 0 <= j < evs.len() ==> describes(#[trigger] evs[j], events_of(items)[j], signature_of(events_of(items)[j]))
}

/// Builds a contract's bindings from its parsed schema.
pub fn generate_event_bindings(
    indexer_name: &str,
    contract: &Contract,
    is_filter: bool,
    storage: &Storage,
    abi_items: Vec<ABIItem>,
) -> (r: String)
    requires
        contract.generate_csv ==> storage.csv is Some,
    ensures
        exists|evs: Seq<EventInfo>|
            described_events(evs, abi_items_of(*contract, abi_items@, is_filter)) && r@ == bindings_code_of(
                indexer_name@,
                *contract,
                *storage,
                evs,
                record_structs_of(abi_items@, snake_of(abigen_name_of(contract.name@))),
            ),
{
    let structs = generate_structs(contract, &abi_items);
    let items = get_abi_items(contract, abi_items, is_filter);
    let ghost sel = items@;
    let events = extract_event_names_and_signatures_from_abi(items);
    let ghost evs = events@;
    let r = generate_event_bindings_code(indexer_name, contract, storage, events, structs.as_str());
    assert(described_events(evs, sel));
    r
}

/// The handler of one event: it wraps the event's write statements, one per
/// enabled sink, in a callback and registers it.
pub open spec fn handler_of(indexer: Seq<char>, c: Contract, storage: Storage, e: EventInfo) -> Seq<char> {
    let csvw = if storage.csv is Some { csv_write_of(object_leaves(e.inputs@)) } else { Seq::empty() };
    let pgw = if storage.postgres {
        postgres_write_of(insert_sql_of(indexer, c.name@, e.name@, e.inputs@), object_leaves(e.inputs@))
    } else {
        Seq::empty()
    };
    "\nasync fn "@ + snake_of(e.name@) + "_handler(registry: &mut EventCallbackRegistry) {\n    "@ + c.name@
        + "EventType::"@ + e.name@ + "(\n        "@ + e.name@
        + "Event::new(\n            Arc::new(|results, context| {\n                Box::pin(async move {\n                    for result in results {\n                        "@
        + csvw + "\n                        "@ + pgw
        + "\n                    }\n                })\n            }),\n            no_extensions()\n        )\n        .await,\n    )\n    .register(registry);\n}\n"@
}

/// The import line entry for one event's callback struct.
pub open spec fn handler_import_of(name: Seq<char>) -> Seq<char> {
    ","@ + name + "Event"@
}

/// The call of one event's handler inside the registry function.
pub open spec fn handler_call_of(name: Seq<char>) -> Seq<char> {
    "\n    "@ + snake_of(name) + "_handler(registry).await;\n"@
}

/// A contract's handlers file: imports, one handler per event, and a registry
/// function that calls every handler in order.
pub open spec fn handlers_file_of(indexer: Seq<char>, c: Contract, storage: Storage, events: Seq<EventInfo>) -> Seq<char> {
    "\nuse rindexer_core::{\n    generator::event_callback_registry::{EventCallbackRegistry},\n    EthereumSqlTypeWrapper\n};\n"@
        + "use std::sync::Arc;\n"@ + "use super::super::super::typings::"@ + snake_of(indexer) + "::events::"@
        + snake_of(c.name@) + "::{no_extensions, "@ + c.name@ + "EventType"@
        + joined(event_names(events).map_values(|n: Seq<char>| handler_import_of(n)), Seq::empty()) + "};\n"@
        + joined(events.map_values(|e: EventInfo| handler_of(indexer, c, storage, e)), Seq::empty())
        + "pub async fn "@ + snake_of(c.name@) + "_handlers(registry: &mut EventCallbackRegistry) {"@
        + joined(event_names(events).map_values(|n: Seq<char>| handler_call_of(n)), Seq::empty()) + "}"@
}

/// With relational storage off, an event's handler holds no insert statement:
/// it is the same whatever indexer (hence whatever schema) it is written for,
/// and its write part is the flat-file row alone, or nothing when flat files
/// are off too.
pub proof fn lemma_handler_without_database(i1: Seq<char>, i2: Seq<char>, c: Contract, storage: Storage, e: EventInfo)
    requires
        !storage.postgres,
    ensures
        handler_of(i1, c, storage, e) == handler_of(i2, c, storage, e),
        handler_of(i1, c, storage, e) == "\nasync fn "@ + snake_of(e.name@)
            + "_handler(registry: &mut EventCallbackRegistry) {\n    "@ + c.name@ + "EventType::"@ + e.name@
            + "(\n        "@ + e.name@
            + "Event::new(\n            Arc::new(|results, context| {\n                Box::pin(async move {\n                    for result in results {\n                        "@
            + (if storage.csv is Some { csv_write_of(object_leaves(e.inputs@)) } else { Seq::empty() })
            + "\n                        "@
            + "\n                    }\n                })\n            }),\n            no_extensions()\n        )\n        .await,\n    )\n    .register(registry);\n}\n"@,
{
    assert(handler_of(i1, c, storage, e) =~= "\nasync fn "@ + snake_of(e.name@)
            + "_handler(registry: &mut EventCallbackRegistry) {\n    "@ + c.name@ + "EventType::"@ + e.name@
            + "(\n        "@ + e.name@
            + "Event::new(\n            Arc::new(|results, context| {\n                Box::pin(async move {\n                    for result in results {\n                        "@
            + (if storage.csv is Some { csv_write_of(object_leaves(e.inputs@)) } else { Seq::empty() })
            + "\n                        "@
            + "\n                    }\n                })\n            }),\n            no_extensions()\n        )\n        .await,\n    )\n    .register(registry);\n}\n"@);
}

fn handler(indexer_name: &str, contract: &Contract, storage: &Storage, e: &EventInfo) -> (r: String)
    ensures
        r@ == handler_of(indexer_name@, *contract, *storage, *e),
{
    let sink = event_sink_code(indexer_name, contract.name.as_str(), e, storage);
    String::from_str("\nasync fn ").concat(camel_to_snake(e.name.as_str()).as_str()).concat(
        "_handler(registry: &mut EventCallbackRegistry) {\n    ",
    ).concat(contract.name.as_str()).concat("EventType::").concat(e.name.as_str()).concat("(\n        ").concat(
        e.name.as_str(),
    ).concat(
        "Event::new(\n            Arc::new(|results, context| {\n                Box::pin(async move {\n                    for result in results {\n                        ",
    ).concat(sink.csv_write.as_str()).concat("\n                        ").concat(sink.postgres_write.as_str()).concat(
        "\n                    }\n                })\n            }),\n            no_extensions()\n        )\n        .await,\n    )\n    .register(registry);\n}\n",
    )
}

/// Builds a contract's handlers file from its described events.
pub fn event_handlers_code(indexer_name: &str, contract: &Contract, storage: &Storage, event_info: &Vec<EventInfo>) -> (r: String)
    ensures
        r@ == handlers_file_of(indexer_name@, *contract, *storage, event_info@),
{
    let mut imports: Vec<String> = Vec::new();
    let mut handlers: Vec<String> = Vec::new();
    let mut calls: Vec<String> = Vec::new();
    let mut i: usize = 0;
    while i < event_info.len()
        invariant
            i <= event_info@.len(),
            string_views(imports@) == event_names(event_info@.subrange(0, i as int)).map_values(
                |n: Seq<char>| handler_import_of(n),
            ),
            string_views(handlers@) == event_info@.subrange(0, i as int).map_values(
                |e: EventInfo| handler_of(indexer_name@, *contract, *storage, e),
            ),
            string_views(calls@) == event_names(event_info@.subrange(0, i as int)).map_values(
                |n: Seq<char>| handler_call_of(n),
            ),
        decreases event_info@.len() - i,
    {
        let e = &event_info[i];
        let n = e.name.as_str();
        let ghost (bi, bh, bc) = (imports@, handlers@, calls@);
        imports.push(String::from_str(",").concat(n).concat("Event"));
        handlers.push(handler(indexer_name, contract, storage, e));
        calls.push(String::from_str("\n    ").concat(camel_to_snake(n).as_str()).concat("_handler(registry).await;\n"));
        proof {
            let lo = event_info@.subrange(0, i as int);
            let hi = event_info@.subrange(0, i + 1);
            assert(string_views(imports@) =~= string_views(bi).push(handler_import_of(n@)));
            assert(string_views(handlers@) =~= string_views(bh).push(handler_of(indexer_name@, *contract, *storage, *e)));
            assert(string_views(calls@) =~= string_views(bc).push(handler_call_of(n@)));
            assert(event_names(hi).map_values(|n: Seq<char>| handler_import_of(n)) =~= event_names(lo).map_values(
                |n: Seq<char>| handler_import_of(n),
            ).push(handler_import_of(n@)));
            assert(hi.map_values(|e: EventInfo| handler_of(indexer_name@, *contract, *storage, e)) =~= lo.map_values(
                |e: EventInfo| handler_of(indexer_name@, *contract, *storage, e),
            ).push(handler_of(indexer_name@, *contract, *storage, *e)));
            assert(event_names(hi).map_values(|n: Seq<char>| handler_call_of(n)) =~= event_names(lo).map_values(
                |n: Seq<char>| handler_call_of(n),
            ).push(handler_call_of(n@)));
        }
        i = i + 1;
    }
    assert(event_info@.subrange(0, event_info@.len() as int) =~= event_info@);
    proof {
        reveal_strlit("");
    }
    let etn = generate_event_type_name(contract.name.as_str());
    let ji = join(&imports, "");
    let jh = join(&handlers, "");
    let jc = join(&calls, "");
    assert(""@ =~= Seq::<char>::empty());
    let head = String::from_str(
        "\nuse rindexer_core::{\n    generator::event_callback_registry::{EventCallbackRegistry},\n    EthereumSqlTypeWrapper\n};\n",
    ).concat("use std::sync::Arc;\n").concat("use super::super::super::typings::").concat(
        camel_to_snake(indexer_name).as_str(),
    ).concat("::events::").concat(camel_to_snake(contract.name.as_str()).as_str()).concat("::{no_extensions, ").concat(
        etn.as_str(),
    ).concat(ji.as_str()).concat("};\n");
    let r = head.concat(jh.as_str()).concat("pub async fn ").concat(camel_to_snake(contract.name.as_str()).as_str()).concat(
        "_handlers(registry: &mut EventCallbackRegistry) {",
    ).concat(jc.as_str()).concat("}");
    assert(r@ =~= handlers_file_of(indexer_name@, *contract, *storage, event_info@));
    r
}

/// Builds a contract's handlers file from its parsed schema.
pub fn generate_event_handlers(
    indexer_name: &str,
    is_filter: bool,
    contract: &Contract,
    storage: &Storage,
    abi_items: Vec<ABIItem>,
) -> (r: String)
    ensures
        exists|evs: Seq<EventInfo>|
            described_events(evs, abi_items_of(*contract, abi_items@, is_filter)) && r@ == handlers_file_of(
                indexer_name@,
                *contract,
                *storage,
                evs,
            ),
{
    let items = get_abi_items(contract, abi_items, is_filter);
    let ghost sel = items@;
    let events = extract_event_names_and_signatures_from_abi(items);
    let r = event_handlers_code(indexer_name, contract, storage, &events);
    assert(described_events(events@, sel));
    r
}

} // verus!
