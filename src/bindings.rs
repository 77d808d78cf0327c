use vstd::prelude::*;
use vstd::string::*;
use crate::abi::EventInfo;
use crate::config::{Contract, ContractDetails, FactoryDetails, FilterDetails, IndexingContractSetup};
use crate::naming::{camel_to_snake, snake_of};
use crate::text::{decimal, distinct, join, joined, string_views, to_decimal};
use crate::abi::name_listed;
use crate::topic::{event_topic_id, is_topic_id, topic_id_of};

verus! {

/// The name of the generated contract binding type: `Rindexer<Name>Gen`.
pub open spec fn abigen_name_of(name: Seq<char>) -> Seq<char> {
    "Rindexer"@ + name + "Gen"@
}

/// Names the generated contract binding type.
pub fn abigen_contract_name(contract: &Contract) -> (r: String)
    ensures
        r@ == abigen_name_of(contract.name@),
{
    String::from_str("Rindexer").concat(contract.name.as_str()).concat("Gen")
}

/// Names the module of the generated contract binding.
pub fn abigen_contract_mod_name(contract: &Contract) -> (r: String)
    ensures
        r@ == snake_of(abigen_name_of(contract.name@)),
{
    let n = abigen_contract_name(contract);
    camel_to_snake(n.as_str())
}

/// Names the file of the generated contract binding: `<name>_abi_gen`.
pub fn abigen_contract_file_name(contract: &Contract) -> (r: String)
    ensures
        r@ == snake_of(contract.name@) + "_abi_gen"@,
{
    camel_to_snake(contract.name.as_str()).concat("_abi_gen")
}

/// Names the dispatch type of a contract: `<Name>EventType`.
pub fn generate_event_type_name(name: &str) -> (r: String)
    ensures
        r@ == name@ + "EventType"@,
{
    String::from_str(name).concat("EventType")
}

pub open spec fn event_names(events: Seq<EventInfo>) -> Seq<Seq<char>> {
    events.map_values(|e: EventInfo| e.name@)
}

/// One variant of the dispatch type.
pub open spec fn enum_variant_of(name: Seq<char>) -> Seq<char> {
    name + "("@ + name + "Event<TExtensions>),"@
}

/// The variants of the dispatch type, one per event, one per line.
pub fn generate_event_enums_code(event_info: &Vec<EventInfo>) -> (r: String)
    ensures
        r@ == joined(event_names(event_info@).map_values(|n: Seq<char>| enum_variant_of(n)), "\n"@),
{
    let mut parts: Vec<String> = Vec::new();
    let mut i: usize = 0;
    while i < event_info.len()
        invariant
            i <= event_info@.len(),
            string_views(parts@) == event_names(event_info@.subrange(0, i as int)).map_values(
                |n: Seq<char>| enum_variant_of(n),
            ),
        decreases event_info@.len() - i,
    {
        let n = event_info[i].name.as_str();
        let ghost before = parts@;
        parts.push(String::from_str(n).concat("(").concat(n).concat("Event<TExtensions>),"));
        proof {
            assert(string_views(parts@) =~= string_views(before).push(enum_variant_of(event_info@[i as int].name@)));
            assert(event_names(event_info@.subrange(0, i + 1)).map_values(|n: Seq<char>| enum_variant_of(n))
                =~= event_names(event_info@.subrange(0, i as int)).map_values(|n: Seq<char>| enum_variant_of(n)).push(
                enum_variant_of(event_info@[i as int].name@),
            ));
        }
        i = i + 1;
    }
    assert(event_info@.subrange(0, event_info@.len() as int) =~= event_info@);
    join(&parts, "\n")
}

/// The arm that maps an event's variant to its topic id.
pub open spec fn topic_arm_of(ty_name: Seq<char>, e: EventInfo) -> Seq<char> {
    ty_name + "::"@ + e.name@ + "(_) => \""@ + topic_id_of(e.name@, e.signature@) + "\","@
}

/// The arms that map each variant of the dispatch type to its event's topic
/// id; every topic id written is `0x` and 64 lowercase hexadecimal digits.
pub fn generate_topic_ids_match_arms_code(event_type_name: &str, event_info: &Vec<EventInfo>) -> (r: String)
    ensures
        r@ == joined(event_info@.map_values(|e: EventInfo| topic_arm_of(event_type_name@, e)), "\n"@),
        forall|j: int|
            0 <= j < event_info@.len() ==> is_topic_id(
                topic_id_of((#[trigger] event_info@[j]).name@, event_info@[j].signature@),
            ),
{
    let mut parts: Vec<String> = Vec::new();
    let mut i: usize = 0;
    while i < event_info.len()
        invariant
            i <= event_info@.len(),
            string_views(parts@) == event_info@.subrange(0, i as int).map_values(
                |e: EventInfo| topic_arm_of(event_type_name@, e),
            ),
            forall|j: int|
                0 <= j < i ==> is_topic_id(
                    topic_id_of((#[trigger] event_info@[j]).name@, event_info@[j].signature@),
                ),
        decreases event_info@.len() - i,
    {
        let e = &event_info[i];
        let topic = event_topic_id(e);
        let ghost before = parts@;
        parts.push(String::from_str(event_type_name).concat("::").concat(e.name.as_str()).concat("(_) => \"").concat(
            topic.as_str(),
        ).concat("\","));
        proof {
            assert(string_views(parts@) =~= string_views(before).push(topic_arm_of(event_type_name@, *e)));
            assert(event_info@.subrange(0, i + 1).map_values(|e: EventInfo| topic_arm_of(event_type_name@, e))
                =~= event_info@.subrange(0, i as int).map_values(|e: EventInfo| topic_arm_of(event_type_name@, e)).push(
                topic_arm_of(event_type_name@, *e),
            ));
        }
        i = i + 1;
    }
    assert(event_info@.subrange(0, event_info@.len() as int) =~= event_info@);
    join(&parts, "\n")
}

/// The arm that maps an event's variant to its display name.
pub open spec fn name_arm_of(ty_name: Seq<char>, name: Seq<char>) -> Seq<char> {
    ty_name + "::"@ + name + "(_) => \""@ + name + "\","@
}

/// The arm that maps an event's variant to its registration callback.
pub open spec fn register_arm_of(ty_name: Seq<char>, name: Seq<char>) -> Seq<char> {
    "\n"@ + ty_name + "::"@ + name
        + "(event) => {\n    let event = Arc::new(event);\n    Arc::new(move |result| {\n        let event = event.clone();\n        async move { event.call(result).await }.boxed()\n    })\n},\n"@
}

/// The arm that maps an event's variant to its decoder.
pub open spec fn decoder_arm_of(ty_name: Seq<char>, name: Seq<char>) -> Seq<char> {
    "\n"@ + ty_name + "::"@ + name
        + "(_) => {\n    Arc::new(move |topics: Vec<H256>, data: Bytes| {\n        match contract.decode_event::<"@
        + name + "Data>(\""@ + name
        + "\", topics, data) {\n            Ok(filter) => Arc::new(filter) as Arc<dyn Any + Send + Sync>,\n            Err(error) => Arc::new(error) as Arc<dyn Any + Send + Sync>,\n        }\n    })\n}\n"@
}

/// Which arm a per-event generator renders.
pub enum ArmKind {
    Name,
    Register,
    Decoder,
}

pub open spec fn arm_of(kind: ArmKind, ty_name: Seq<char>, name: Seq<char>) -> Seq<char> {
    match kind {
        ArmKind::Name => name_arm_of(ty_name, name),
        ArmKind::Register => register_arm_of(ty_name, name),
        ArmKind::Decoder => decoder_arm_of(ty_name, name),
    }
}

fn arm_code(kind: &ArmKind, ty_name: &str, name: &str) -> (r: String)
    ensures
        r@ == arm_of(*kind, ty_name@, name@),
{
    match kind {
        ArmKind::Name => String::from_str(ty_name).concat("::").concat(name).concat("(_) => \"").concat(name).concat(
            "\",",
        ),
        ArmKind::Register => String::from_str("\n").concat(ty_name).concat("::").concat(name).concat(
            "(event) => {\n    let event = Arc::new(event);\n    Arc::new(move |result| {\n        let event = event.clone();\n        async move { event.call(result).await }.boxed()\n    })\n},\n",
        ),
        ArmKind::Decoder => String::from_str("\n").concat(ty_name).concat("::").concat(name).concat(
            "(_) => {\n    Arc::new(move |topics: Vec<H256>, data: Bytes| {\n        match contract.decode_event::<",
        ).concat(name).concat("Data>(\"").concat(name).concat(
            "\", topics, data) {\n            Ok(filter) => Arc::new(filter) as Arc<dyn Any + Send + Sync>,\n            Err(error) => Arc::new(error) as Arc<dyn Any + Send + Sync>,\n        }\n    })\n}\n",
        ),
    }
}

/// The arms of one kind, one per event, joined by newlines.
pub open spec fn arms_of(kind: ArmKind, ty_name: Seq<char>, events: Seq<EventInfo>) -> Seq<char> {
    joined(event_names(events).map_values(|n: Seq<char>| arm_of(kind, ty_name, n)), "\n"@)
}

fn arms_code(kind: ArmKind, event_type_name: &str, event_info: &Vec<EventInfo>) -> (r: String)
    ensures
        r@ == arms_of(kind, event_type_name@, event_info@),
{
    let mut parts: Vec<String> = Vec::new();
    let mut i: usize = 0;
    while i < event_info.len()
        invariant
            i <= event_info@.len(),
            string_views(parts@) == event_names(event_info@.subrange(0, i as int)).map_values(
                |n: Seq<char>| arm_of(kind, event_type_name@, n),
            ),
        decreases event_info@.len() - i,
    {
        let ghost before = parts@;
        parts.push(arm_code(&kind, event_type_name, event_info[i].name.as_str()));
        proof {
            let a = arm_of(kind, event_type_name@, event_info@[i as int].name@);
            assert(string_views(parts@) =~= string_views(before).push(a));
            assert(event_names(event_info@.subrange(0, i + 1)).map_values(
                |n: Seq<char>| arm_of(kind, event_type_name@, n),
            ) =~= event_names(event_info@.subrange(0, i as int)).map_values(
                |n: Seq<char>| arm_of(kind, event_type_name@, n),
            ).push(a));
        }
        i = i + 1;
    }
    assert(event_info@.subrange(0, event_info@.len() as int) =~= event_info@);
    join(&parts, "\n")
}

/// The arms that map each variant of the dispatch type to its event's name.
pub fn generate_event_names_match_arms_code(event_type_name: &str, event_info: &Vec<EventInfo>) -> (r: String)
    ensures
        r@ == arms_of(ArmKind::Name, event_type_name@, event_info@),
{
    arms_code(ArmKind::Name, event_type_name, event_info)
}

/// The arms that map each variant of the dispatch type to its registration callback.
pub fn generate_register_match_arms_code(event_type_name: &str, event_info: &Vec<EventInfo>) -> (r: String)
    ensures
        r@ == arms_of(ArmKind::Register, event_type_name@, event_info@),
{
    arms_code(ArmKind::Register, event_type_name, event_info)
}

/// The arms that map each variant of the dispatch type to its decoder.
pub fn generate_decoder_match_arms_code(event_type_name: &str, event_info: &Vec<EventInfo>) -> (r: String)
    ensures
        r@ == arms_of(ArmKind::Decoder, event_type_name@, event_info@),
{
    arms_code(ArmKind::Decoder, event_type_name, event_info)
}

/// A string as a source-text string literal turned into a `String`.
pub open spec fn quoted_of(s: Seq<char>) -> Seq<char> {
    "\""@ + s + "\".to_string()"@
}

/// A list of strings as source-text literals, comma-separated.
pub open spec fn quoted_list_of(s: Seq<Seq<char>>) -> Seq<char> {
    joined(s.map_values(|x: Seq<char>| quoted_of(x)), ", "@)
}

fn quoted_list(v: &Vec<String>) -> (r: String)
    ensures
        r@ == quoted_list_of(string_views(v@)),
{
    let mut parts: Vec<String> = Vec::new();
    let mut i: usize = 0;
    while i < v.len()
        invariant
            i <= v@.len(),
            string_views(parts@) == string_views(v@.subrange(0, i as int)).map_values(|x: Seq<char>| quoted_of(x)),
        decreases v@.len() - i,
    {
        let ghost before = parts@;
        parts.push(String::from_str("\"").concat(v[i].as_str()).concat("\".to_string()"));
        proof {
            assert(string_views(parts@) =~= string_views(before).push(quoted_of(v@[i as int]@)));
            assert(string_views(v@.subrange(0, i + 1)).map_values(|x: Seq<char>| quoted_of(x)) =~= string_views(
                v@.subrange(0, i as int),
            ).map_values(|x: Seq<char>| quoted_of(x)).push(quoted_of(v@[i as int]@)));
        }
        i = i + 1;
    }
    assert(v@.subrange(0, v@.len() as int) =~= v@);
    join(&parts, ", ")
}

/// An optional list of strings as a source-text literal.
pub open spec fn indexed_vec_of(indexed: Option<Vec<String>>) -> Seq<char> {
    match indexed {
        Some(v) => "Some(vec!["@ + quoted_list_of(string_views(v@)) + "])"@,
        None => "None"@,
    }
}

/// Renders an optional list of strings as a source-text literal.
pub fn generate_indexed_vec_string(indexed: &Option<Vec<String>>) -> (r: String)
    ensures
        r@ == indexed_vec_of(*indexed),
{
    match indexed {
        Some(values) => {
            let l = quoted_list(values);
            String::from_str("Some(vec![").concat(l.as_str()).concat("])")
        },
        None => String::from_str("None"),
    }
}

/// The accessor that gives the provider of a network: `get_<network>_provider`.
pub open spec fn provider_fn_name_of(network: Seq<char>) -> Seq<char> {
    "get_"@ + snake_of(network) + "_provider"@
}

/// Names the accessor that gives the provider of a network.
pub fn network_provider_fn_name_by_name(network: &str) -> (r: String)
    ensures
        r@ == provider_fn_name_of(network@),
{
    String::from_str("get_").concat(camel_to_snake(network).as_str()).concat("_provider")
}

/// The branch of the provider accessor for one network.
pub open spec fn provider_branch_of(network: Seq<char>) -> Seq<char> {
    "\n    if network == \""@ + network + "\" {\n        return super::super::super::networks::"@
        + provider_fn_name_of(network) + "();\n    }"@
}

/// The branches of the provider accessor, chained by `else`.
pub open spec fn provider_branches_of(ns: Seq<Seq<char>>) -> Seq<char>
    decreases ns.len(),
{
    if ns.len() == 0 {
        Seq::empty()
    } else if ns.len() == 1 {
        provider_branch_of(ns[0])
    } else {
        provider_branches_of(ns.drop_last()) + " else "@ + provider_branch_of(ns.last())
    }
}

/// The provider accessor: one branch per network, in order, and a final
/// branch that stops on any other network.
pub open spec fn provider_fn_of(ns: Seq<Seq<char>>) -> Seq<char> {
    "fn get_provider(&self, network: &str) -> &'static Arc<Provider<RetryClient<Http>>> {\n"@
        + provider_branches_of(ns) + "\n    else {\n        panic!(\"Network not supported\")\n    }\n}"@
}

fn distinct_names(names: &Vec<String>) -> (r: Vec<String>)
    ensures
        string_views(r@) == distinct(string_views(names@)),
{
    let mut out: Vec<String> = Vec::new();
    let mut i: usize = 0;
    while i < names.len()
        invariant
            i <= names@.len(),
            string_views(out@) == distinct(string_views(names@.subrange(0, i as int))),
        decreases names@.len() - i,
    {
        let ghost before = out@;
        let seen = name_listed(&out, names[i].as_str());
        if !seen {
            out.push(names[i].clone());
            assert(string_views(out@) =~= string_views(before).push(names@[i as int]@));
        }
        proof {
            let next = string_views(names@.subrange(0, i + 1));
            assert(next.drop_last() =~= string_views(names@.subrange(0, i as int)));
            assert(next.last() == names@[i as int]@);
        }
        i = i + 1;
    }
    assert(names@.subrange(0, names@.len() as int) =~= names@);
    out
}

/// Builds the provider accessor over the given networks: one branch per
/// distinct network name, in order of first appearance.
pub fn build_get_provider_fn(networks: Vec<String>) -> (r: String)
    ensures
        r@ == provider_fn_of(distinct(string_views(networks@))),
{
    let networks = distinct_names(&networks);
    let mut function = String::from_str(
        "fn get_provider(&self, network: &str) -> &'static Arc<Provider<RetryClient<Http>>> {\n",
    );
    let ghost head = function@;
    let mut i: usize = 0;
    while i < networks.len()
        invariant
            i <= networks@.len(),
            function@ == head + provider_branches_of(string_views(networks@.subrange(0, i as int))),
        decreases networks@.len() - i,
    {
        if i > 0 {
            function.append(" else ");
        }
        let n = networks[i].as_str();
        let f = network_provider_fn_name_by_name(n);
        function.append("\n    if network == \"");
        function.append(n);
        function.append("\" {\n        return super::super::super::networks::");
        function.append(f.as_str());
        function.append("();\n    }");
        proof {
            let next = string_views(networks@.subrange(0, i + 1));
            assert(next.drop_last() =~= string_views(networks@.subrange(0, i as int)));
            assert(next.last() == networks@[i as int]@);
            if i == 0 {
                assert(provider_branches_of(string_views(networks@.subrange(0, i as int))) =~= Seq::<char>::empty());
            }
            assert(function@ =~= head + provider_branches_of(next));
        }
        i = i + 1;
    }
    assert(networks@.subrange(0, networks@.len() as int) =~= networks@);
    function.append("\n    else {\n        panic!(\"Network not supported\")\n    }\n}");
    function
}

/// The address a contract accessor binds to on one network: the fixed
/// address of an address setup, the zero address otherwise.
pub open spec fn detail_address_of(d: ContractDetails) -> Seq<char> {
    match d.setup {
        IndexingContractSetup::Address(a) => a@,
        _ => "0x0000000000000000000000000000000000000000"@,
    }
}

/// The branch of the contract accessor for one network.
pub open spec fn contract_branch_of(first: bool, d: ContractDetails, abi_gen_name: Seq<char>) -> Seq<char> {
    (if first { "    if "@ } else { "    else if "@ }) + "network == \""@ + d.network@
        + "\" {\n        let address: Address = \""@ + detail_address_of(d)
        + "\"\n            .parse()\n            .unwrap();\n        "@ + abi_gen_name
        + "::new(address, Arc::new(self.get_provider(network).clone()))\n    }"@
}

pub open spec fn contract_branches_of(ds: Seq<ContractDetails>, abi_gen_name: Seq<char>) -> Seq<char>
    decreases ds.len(),
{
    if ds.len() == 0 {
        Seq::empty()
    } else {
        contract_branches_of(ds.drop_last(), abi_gen_name) + contract_branch_of(ds.len() == 1, ds.last(), abi_gen_name)
    }
}

/// The contract accessor: one branch per network setup, in order, and a final
/// branch that stops on any other network.
pub open spec fn contract_fn_of(ds: Seq<ContractDetails>, abi_gen_name: Seq<char>) -> Seq<char> {
    "fn contract(&self, network: &str) -> "@ + abi_gen_name + "<Arc<Provider<RetryClient<Http>>>> {"@
        + contract_branches_of(ds, abi_gen_name) + "\n    else {\n        panic!(\"Network not supported\");\n    }\n}"@
}

fn contract_branch(first: bool, d: &ContractDetails, abi_gen_name: &str) -> (r: String)
    ensures
        r@ == contract_branch_of(first, *d, abi_gen_name@),
{
    let address = match d.indexing_contract_setup() {
        IndexingContractSetup::Address(a) => a.as_str(),
        _ => "0x0000000000000000000000000000000000000000",
    };
    let lead = if first {
        "    if "
    } else {
        "    else if "
    };
    String::from_str(lead).concat("network == \"").concat(d.network.as_str()).concat(
        "\" {\n        let address: Address = \"",
    ).concat(address).concat("\"\n            .parse()\n            .unwrap();\n        ").concat(abi_gen_name).concat(
        "::new(address, Arc::new(self.get_provider(network).clone()))\n    }",
    )
}

/// Builds the contract accessor over the given network setups.
pub fn build_contract_fn(contracts_details: &Vec<ContractDetails>, abi_gen_name: &str) -> (r: String)
    ensures
        r@ == contract_fn_of(contracts_details@, abi_gen_name@),
{
    let mut function = String::from_str("fn contract(&self, network: &str) -> ").concat(abi_gen_name).concat(
        "<Arc<Provider<RetryClient<Http>>>> {",
    );
    let ghost head = function@;
    let mut i: usize = 0;
    while i < contracts_details.len()
        invariant
            i <= contracts_details@.len(),
            function@ == head + contract_branches_of(contracts_details@.subrange(0, i as int), abi_gen_name@),
        decreases contracts_details@.len() - i,
    {
        let d = &contracts_details[i];
        let b = contract_branch(i == 0, d, abi_gen_name);
        function.append(b.as_str());
        proof {
            let next = contracts_details@.subrange(0, i + 1);
            assert(next.drop_last() =~= contracts_details@.subrange(0, i as int));
            assert(next.last() == *d);
            assert(function@ =~= head + contract_branches_of(next, abi_gen_name@));
        }
        i = i + 1;
    }
    assert(contracts_details@.subrange(0, contracts_details@.len() as int) =~= contracts_details@);
    function.append("\n    else {\n        panic!(\"Network not supported\");\n    }\n}");
    function
}

/// An optional block number as a source-text literal.
pub open spec fn block_of(b: Option<u64>) -> Seq<char> {
    match b {
        Some(n) => "Some("@ + decimal(n as nat) + ".into())"@,
        None => "None"@,
    }
}

fn block_code(b: Option<u64>) -> (r: String)
    ensures
        r@ == block_of(b),
{
    match b {
        Some(n) => String::from_str("Some(").concat(to_decimal(n as u128).as_str()).concat(".into())"),
        None => String::from_str("None"),
    }
}

/// An optional polling interval as a source-text literal.
pub open spec fn polling_of(p: Option<u64>) -> Seq<char> {
    match p {
        Some(n) => "Some("@ + decimal(n as nat) + ")"@,
        None => "None"@,
    }
}

fn polling_code(p: Option<u64>) -> (r: String)
    ensures
        r@ == polling_of(p),
{
    match p {
        Some(n) => String::from_str("Some(").concat(to_decimal(n as u128).as_str()).concat(")"),
        None => String::from_str("None"),
    }
}

/// The arguments that every setup literal ends with.
pub open spec fn setup_tail_of(d: ContractDetails) -> Seq<char> {
    "    "@ + block_of(d.start_block) + ",\n    "@ + block_of(d.end_block) + ",\n    "@
        + polling_of(d.polling_every) + ",\n),\n"@
}

pub open spec fn filter_fields_of(f: FilterDetails) -> Seq<char> {
    "    FilterDetails {\n        event_name: \""@ + f.event_name@ + "\".to_string(),\n        indexed_1: "@
        + indexed_vec_of(f.indexed_1) + ",\n        indexed_2: "@ + indexed_vec_of(f.indexed_2)
        + ",\n        indexed_3: "@ + indexed_vec_of(f.indexed_3) + ",\n    },\n"@
}

pub open spec fn factory_fields_of(f: FactoryDetails) -> Seq<char> {
    "    FactoryDetails {\n        address: \""@ + f.address@ + "\".to_string(),\n        event_name: \""@
        + f.event_name@ + "\".to_string(),\n        parameter_name: \""@ + f.parameter_name@
        + "\".to_string(),\n        abi: \""@ + f.abi@ + "\".to_string(),\n    },\n"@
}

/// One network setup as a source-text literal.
pub open spec fn setup_literal_of(d: ContractDetails) -> Seq<char> {
    match d.setup {
        IndexingContractSetup::Address(a) => "\nContractDetails::new_with_address(\n    \""@ + d.network@
            + "\".to_string(),\n    \""@ + a@ + "\".to_string(),\n"@ + setup_tail_of(d),
        IndexingContractSetup::Filter(f) => "\nContractDetails::new_with_filter(\n    \""@ + d.network@
            + "\".to_string(),\n"@ + filter_fields_of(f) + setup_tail_of(d),
        IndexingContractSetup::Factory(f) => "\nContractDetails::new_with_factory(\n    \""@ + d.network@
            + "\".to_string(),\n"@ + factory_fields_of(f) + setup_tail_of(d),
    }
}

pub open spec fn setup_literals_of(ds: Seq<ContractDetails>) -> Seq<char>
    decreases ds.len(),
{
    if ds.len() == 0 {
        Seq::empty()
    } else {
        setup_literals_of(ds.drop_last()) + setup_literal_of(ds.last())
    }
}

pub open spec fn bool_of(b: bool) -> Seq<char> {
    if b { "true"@ } else { "false"@ }
}

/// The `contract_information()` accessor, which rebuilds the contract's
/// configuration, setups included, from source-text literals.
pub open spec fn contract_type_fn_of(c: Contract) -> Seq<char> {
    "\nfn contract_information(&self) -> Contract {\n    Contract {\n        name: \""@ + c.name@
        + "\".to_string(),\n        details: vec!["@ + setup_literals_of(c.details@)
        + "],\n        abi: \""@ + c.abi@ + "\".to_string(),\n        include_events: "@
        + indexed_vec_of(c.include_events) + ",\n        reorg_safe_distance: "@
        + bool_of(c.reorg_safe_distance) + ",\n        generate_csv: "@ + bool_of(c.generate_csv)
        + ",\n    }\n}\n"@
}

fn setup_tail(d: &ContractDetails) -> (r: String)
    ensures
        r@ == setup_tail_of(*d),
{
    String::from_str("    ").concat(block_code(d.start_block).as_str()).concat(",\n    ").concat(
        block_code(d.end_block).as_str(),
    ).concat(",\n    ").concat(polling_code(d.polling_every).as_str()).concat(",\n),\n")
}

fn setup_literal(d: &ContractDetails) -> (r: String)
    ensures
        r@ == setup_literal_of(*d),
{
    let tail = setup_tail(d);
    match d.indexing_contract_setup() {
        IndexingContractSetup::Address(a) => String::from_str("\nContractDetails::new_with_address(\n    \"").concat(
            d.network.as_str(),
        ).concat("\".to_string(),\n    \"").concat(a.as_str()).concat("\".to_string(),\n").concat(tail.as_str()),
        IndexingContractSetup::Filter(f) => {
            let fields = String::from_str("    FilterDetails {\n        event_name: \"").concat(
                f.event_name.as_str(),
            ).concat("\".to_string(),\n        indexed_1: ").concat(
                generate_indexed_vec_string(&f.indexed_1).as_str(),
            ).concat(",\n        indexed_2: ").concat(generate_indexed_vec_string(&f.indexed_2).as_str()).concat(
                ",\n        indexed_3: ",
            ).concat(generate_indexed_vec_string(&f.indexed_3).as_str()).concat(",\n    },\n");
            String::from_str("\nContractDetails::new_with_filter(\n    \"").concat(d.network.as_str()).concat(
                "\".to_string(),\n",
            ).concat(fields.as_str()).concat(tail.as_str())
        },
        IndexingContractSetup::Factory(f) => {
            let fields = String::from_str("    FactoryDetails {\n        address: \"").concat(f.address.as_str()).concat(
                "\".to_string(),\n        event_name: \"",
            ).concat(f.event_name.as_str()).concat("\".to_string(),\n        parameter_name: \"").concat(
                f.parameter_name.as_str(),
            ).concat("\".to_string(),\n        abi: \"").concat(f.abi.as_str()).concat("\".to_string(),\n    },\n");
            String::from_str("\nContractDetails::new_with_factory(\n    \"").concat(d.network.as_str()).concat(
                "\".to_string(),\n",
            ).concat(fields.as_str()).concat(tail.as_str())
        },
    }
}

/// Builds the `contract_information()` accessor of a contract.
pub fn generate_contract_type_fn_code(contract: &Contract) -> (r: String)
    ensures
        r@ == contract_type_fn_of(*contract),
{
    let mut details = String::new();
    let mut i: usize = 0;
    while i < contract.details.len()
        invariant
            i <= contract.details@.len(),
            details@ == setup_literals_of(contract.details@.subrange(0, i as int)),
        decreases contract.details@.len() - i,
    {
        let item = setup_literal(&contract.details[i]);
        details.append(item.as_str());
        proof {
            let next = contract.details@.subrange(0, i + 1);
            assert(next.drop_last() =~= contract.details@.subrange(0, i as int));
        }
        i = i + 1;
    }
    assert(contract.details@.subrange(0, contract.details@.len() as int) =~= contract.details@);
    let rsd = if contract.reorg_safe_distance { "true" } else { "false" };
    let gc = if contract.generate_csv { "true" } else { "false" };
    String::from_str("\nfn contract_information(&self) -> Contract {\n    Contract {\n        name: \"").concat(
        contract.name.as_str(),
    ).concat("\".to_string(),\n        details: vec![").concat(details.as_str()).concat(
        "],\n        abi: \"",
    ).concat(contract.abi.as_str()).concat("\".to_string(),\n        include_events: ").concat(
        generate_indexed_vec_string(&contract.include_events).as_str(),
    ).concat(",\n        reorg_safe_distance: ").concat(rsd).concat(",\n        generate_csv: ").concat(gc).concat(
        ",\n    }\n}\n",
    )
}

} // verus!
