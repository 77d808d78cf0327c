use vstd::prelude::*;
use vstd::string::*;
use crate::abi::ABIInput;
use crate::naming::{camel_to_snake, snake_of, is_upper, lemma_snake_of_lowercase};
use crate::types::{column_type_of, solidity_type_to_db_type, solidity_type_to_ethereum_sql_type, wrapper_of};

verus! {

/// The rendering that a projection gives each leaf field.
#[derive(Debug, PartialEq, Eq, Structural)]
pub enum GenerateAbiPropertiesType {
    /// `"<name>" <column type>`
    PostgresWithDataTypes,
    /// `"<name>"`
    PostgresColumnsNamesOnly,
    /// `"<name>"`
    CsvHeaderNames,
    /// `<ancestor>.<name>`
    Object,
}

/// One leaf of a projection, as plain values.
pub struct Projected {
    pub value: Seq<char>,
    pub abi_type: Seq<char>,
    pub wrapper: Option<Seq<char>>,
}

/// One leaf field of a projection: its rendering, its type tag, and the
/// storage wrapper that encodes its values, where one is known.
#[derive(Debug)]
pub struct GenerateAbiNamePropertiesResult {
    pub value: String,
    pub abi_type: String,
    pub ethereum_sql_type_wrapper: Option<String>,
}

impl View for GenerateAbiNamePropertiesResult {
    type V = Projected;

    open spec fn view(&self) -> Projected {
        Projected {
            value: self.value@,
            abi_type: self.abi_type@,
            wrapper: match self.ethereum_sql_type_wrapper {
                Some(w) => Some(w@),
                None => None,
            },
        }
    }
}

impl GenerateAbiNamePropertiesResult {
    /// A leaf with the given rendering and type tag; its wrapper is looked up.
    pub fn new(value: String, abi_type: &str) -> (r: Self)
        ensures
            r@ == (Projected { value: value@, abi_type: abi_type@, wrapper: wrapper_of(abi_type@) }),
    {
        let w = solidity_type_to_ethereum_sql_type(abi_type);
        GenerateAbiNamePropertiesResult {
            value,
            abi_type: String::from_str(abi_type),
            ethereum_sql_type_wrapper: w,
        }
    }
}

pub open spec fn views(s: Seq<GenerateAbiNamePropertiesResult>) -> Seq<Projected> {
    s.map_values(|x: GenerateAbiNamePropertiesResult| x@)
}

pub open spec fn is_object(k: GenerateAbiPropertiesType) -> bool {
    k is Object
}

/// A field's name in the naming convention of projection `k`: as it is for
/// object paths, snake case otherwise.
pub open spec fn converted(k: GenerateAbiPropertiesType, name: Seq<char>) -> Seq<char> {
    if is_object(k) {
        name
    } else {
        snake_of(name)
    }
}

/// The separator that joins ancestors in projection `k`.
pub open spec fn separator(k: GenerateAbiPropertiesType) -> Seq<char> {
    if is_object(k) {
        "."@
    } else {
        "_"@
    }
}

/// The path of a field named `name` below `prefix`.
pub open spec fn path_of(k: GenerateAbiPropertiesType, prefix: Option<Seq<char>>, name: Seq<char>) -> Seq<char> {
    match prefix {
        Some(p) => p + separator(k) + converted(k, name),
        None => converted(k, name),
    }
}

/// The rendering of a leaf at `path` with type tag `t`.
pub open spec fn rendered(k: GenerateAbiPropertiesType, path: Seq<char>, t: Seq<char>) -> Seq<char> {
    match k {
        GenerateAbiPropertiesType::PostgresWithDataTypes => "\""@ + path + "\" "@ + column_type_of(t),
        GenerateAbiPropertiesType::Object => path,
        _ => "\""@ + path + "\""@,
    }
}

/// The projection of one field below `prefix`: a record contributes the
/// projections of its children under its own path, any other field one leaf.
pub open spec fn flatten_one(input: ABIInput, k: GenerateAbiPropertiesType, prefix: Option<Seq<char>>) -> Seq<Projected>
    decreases input,
{
    match input.components {
        Some(c) => flatten(c@, k, Some(path_of(k, prefix, input.name@))),
        None => seq![Projected {
            value: rendered(k, path_of(k, prefix, input.name@), input.type_@),
            abi_type: input.type_@,
            wrapper: wrapper_of(input.type_@),
        }],
    }
}

/// The projection of a sequence of fields below `prefix`, in order.
pub open spec fn flatten(s: Seq<ABIInput>, k: GenerateAbiPropertiesType, prefix: Option<Seq<char>>) -> Seq<Projected>
    decreases s,
{
    if s.len() == 0 {
        Seq::empty()
    } else {
        flatten(s.drop_last(), k, prefix) + flatten_one(s.last(), k, prefix)
    }
}

fn path_string(k: &GenerateAbiPropertiesType, prefix: Option<&str>, name: &str) -> (r: String)
    ensures
        r@ == path_of(*k, match prefix { Some(p) => Some(p@), None => None }, name@),
{
    let conv = match k {
        GenerateAbiPropertiesType::Object => String::from_str(name),
        _ => camel_to_snake(name),
    };
    match prefix {
        Some(p) => {
            let sep = match k {
                GenerateAbiPropertiesType::Object => ".",
                _ => "_",
            };
            String::from_str(p).concat(sep).concat(conv.as_str())
        },
        None => conv,
    }
}

/// Flattens fields into the projection `properties_type`, expanding records into
/// their leaves with names prefixed by the ancestor path.
pub fn generate_abi_name_properties(
    inputs: &[ABIInput],
    properties_type: &GenerateAbiPropertiesType,
    prefix: Option<&str>,
) -> (r: Vec<GenerateAbiNamePropertiesResult>)
    ensures
        views(r@) == flatten(
            inputs@,
            *properties_type,
            match prefix { Some(p) => Some(p@), None => None },
        ),
    decreases inputs@,
{
    let ghost pre = match prefix { Some(p) => Some(p@), None => None };
    let mut out: Vec<GenerateAbiNamePropertiesResult> = Vec::new();
    let mut i: usize = 0;
    while i < inputs.len()
        invariant
            i <= inputs@.len(),
            pre == match prefix { Some(p) => Some(p@), None => None },
            views(out@) == flatten(inputs@.subrange(0, i as int), *properties_type, pre),
        decreases inputs@.len() - i,
    {
        let input = &inputs[i];
        let path = path_string(properties_type, prefix, input.name.as_str());
        let ghost before = out@;
        match &input.components {
            Some(c) => {
                proof {
                    assert(decreases_to!(inputs@ => inputs@[i as int]));
                }
                let mut sub = generate_abi_name_properties(
                    c.as_slice(),
                    properties_type,
                    Some(path.as_str()),
                );
                out.append(&mut sub);
                proof {
                    assert(views(out@) =~= views(before) + flatten_one(*input, *properties_type, pre));
                }
            },
            None => {
                let t = input.type_.as_str();
                let value = match properties_type {
                    GenerateAbiPropertiesType::PostgresWithDataTypes => {
                        let ct = solidity_type_to_db_type(t);
                        String::from_str("\"").concat(path.as_str()).concat("\" ").concat(ct.as_str())
                    },
                    GenerateAbiPropertiesType::Object => path,
                    _ => String::from_str("\"").concat(path.as_str()).concat("\""),
                };
                out.push(GenerateAbiNamePropertiesResult::new(value, t));
                proof {
                    assert(views(out@) =~= views(before) + flatten_one(*input, *properties_type, pre));
                }
            },
        }
        proof {
            let next = inputs@.subrange(0, i + 1);
            assert(next.drop_last() =~= inputs@.subrange(0, i as int));
            assert(next.last() == *input);
        }
        i = i + 1;
    }
    assert(inputs@.subrange(0, inputs@.len() as int) =~= inputs@);
    out
}

/// The number of leaf (non-record) fields reachable from one field.
pub open spec fn leaf_count_one(input: ABIInput) -> nat
    decreases input,
{
    match input.components {
        Some(c) => leaf_count(c@),
        None => 1,
    }
}

/// The number of leaf fields reachable from a sequence of fields by full expansion.
pub open spec fn leaf_count(s: Seq<ABIInput>) -> nat
    decreases s,
{
    if s.len() == 0 {
        0
    } else {
        leaf_count(s.drop_last()) + leaf_count_one(s.last())
    }
}

proof fn lemma_flatten_one_len(input: ABIInput, k: GenerateAbiPropertiesType, prefix: Option<Seq<char>>)
    ensures
        flatten_one(input, k, prefix).len() == leaf_count_one(input),
    decreases input,
{
    match input.components {
        Some(c) => {
            lemma_flatten_len(c@, k, Some(path_of(k, prefix, input.name@)));
        },
        None => {},
    }
}

/// A projection holds exactly one entry per leaf field reachable by full
/// expansion, none dropped and none repeated, whichever its kind and prefix.
pub proof fn lemma_flatten_len(s: Seq<ABIInput>, k: GenerateAbiPropertiesType, prefix: Option<Seq<char>>)
    ensures
        flatten(s, k, prefix).len() == leaf_count(s),
    decreases s,
{
    if s.len() > 0 {
        lemma_flatten_len(s.drop_last(), k, prefix);
        lemma_flatten_one_len(s.last(), k, prefix);
    }
}

pub open spec fn is_separator(c: char) -> bool {
    c == '"' || c == '_' || c == '.'
}

/// `s` without quotes and path separators.
pub open spec fn strip(s: Seq<char>) -> Seq<char>
    decreases s.len(),
{
    if s.len() == 0 {
        Seq::empty()
    } else if is_separator(s.last()) {
        strip(s.drop_last())
    } else {
        strip(s.drop_last()).push(s.last())
    }
}

proof fn lemma_strip_add(a: Seq<char>, b: Seq<char>)
    ensures
        strip(a + b) == strip(a) + strip(b),
    decreases b.len(),
{
    if b.len() == 0 {
        assert(a + b =~= a);
    } else {
        lemma_strip_add(a, b.drop_last());
        assert((a + b).drop_last() =~= a + b.drop_last());
        assert((a + b).last() == b.last());
    }
}

proof fn lemma_strip_seps()
    ensures
        strip("\""@) == Seq::<char>::empty(),
        strip("_"@) == Seq::<char>::empty(),
        strip("."@) == Seq::<char>::empty(),
{
    reveal_strlit("\"");
    reveal_strlit("_");
    reveal_strlit(".");
    let e = Seq::<char>::empty();
    assert(strip(e) == e);
    assert("\""@.drop_last() =~= e);
    assert("_"@.drop_last() =~= e);
    assert("."@.drop_last() =~= e);
    assert(is_separator("\""@.last()));
    assert(is_separator("_"@.last()));
    assert(is_separator("."@.last()));
}

pub open spec fn no_capitals(name: Seq<char>) -> bool {
    forall|i: int| 0 <= i < name.len() ==> !is_upper(#[trigger] name[i])
}

/// No field name below `input`, its own included, holds a capital letter.
pub open spec fn lowercase_names_one(input: ABIInput) -> bool
    decreases input,
{
    no_capitals(input.name@) && match input.components {
        Some(c) => lowercase_names(c@),
        None => true,
    }
}

/// No field name in `s`, at any depth, holds a capital letter.
pub open spec fn lowercase_names(s: Seq<ABIInput>) -> bool
    decreases s,
{
    s.len() == 0 || (lowercase_names(s.drop_last()) && lowercase_names_one(s.last()))
}

pub open spec fn is_bare(k: GenerateAbiPropertiesType) -> bool {
    k is PostgresColumnsNamesOnly || k is CsvHeaderNames
}

/// Two prefixes that agree once quotes and separators are stripped.
pub open spec fn prefixes_agree(a: Option<Seq<char>>, b: Option<Seq<char>>) -> bool {
    match (a, b) {
        (Some(x), Some(y)) => strip(x) == strip(y),
        (None, None) => true,
        _ => false,
    }
}

/// The bare-name and object-path projections give the same names, entry by
/// entry, once separators and quotes are stripped.
pub open spec fn same_stripped(a: Seq<Projected>, b: Seq<Projected>) -> bool {
    a.len() == b.len() && forall|i: int| 0 <= i < a.len() ==> strip((#[trigger] a[i]).value) == strip(b[i].value)
}

proof fn lemma_paths_agree(kb: GenerateAbiPropertiesType, pb: Option<Seq<char>>, po: Option<Seq<char>>, name: Seq<char>)
    requires
        is_bare(kb),
        prefixes_agree(pb, po),
        no_capitals(name),
    ensures
        strip(path_of(kb, pb, name)) == strip(path_of(GenerateAbiPropertiesType::Object, po, name)),
        strip(rendered(kb, path_of(kb, pb, name), Seq::empty())) == strip(path_of(kb, pb, name)),
{
    lemma_snake_of_lowercase(name, name.len());
    assert(name.subrange(0, name.len() as int) =~= name);
    lemma_strip_seps();
    let ob = GenerateAbiPropertiesType::Object;
    match (pb, po) {
        (Some(x), Some(y)) => {
            lemma_strip_add(x + "_"@, name);
            lemma_strip_add(x, "_"@);
            lemma_strip_add(y + "."@, name);
            lemma_strip_add(y, "."@);
            assert(strip(x) + Seq::<char>::empty() =~= strip(x));
            assert(strip(y) + Seq::<char>::empty() =~= strip(y));
        },
        _ => {},
    }
    let pth = path_of(kb, pb, name);
    lemma_strip_add("\""@ + pth, "\""@);
    lemma_strip_add("\""@, pth);
    assert(Seq::<char>::empty() + strip(pth) =~= strip(pth));
    assert(strip(pth) + Seq::<char>::empty() =~= strip(pth));
}

proof fn lemma_stripped_one(input: ABIInput, kb: GenerateAbiPropertiesType, pb: Option<Seq<char>>, po: Option<Seq<char>>)
    requires
        is_bare(kb),
        prefixes_agree(pb, po),
        lowercase_names_one(input),
    ensures
        same_stripped(flatten_one(input, kb, pb), flatten_one(input, GenerateAbiPropertiesType::Object, po)),
    decreases input,
{
    let ob = GenerateAbiPropertiesType::Object;
    lemma_paths_agree(kb, pb, po, input.name@);
    match input.components {
        Some(c) => {
            lemma_stripped(c@, kb, Some(path_of(kb, pb, input.name@)), Some(path_of(ob, po, input.name@)));
        },
        None => {
            let pth = path_of(kb, pb, input.name@);
            assert(rendered(kb, pth, input.type_@) == rendered(kb, pth, Seq::empty()));
        },
    }
}

/// Stripped of quotes and separators, the names of a bare-name projection
/// (column or header names) equal those of the object-path projection, entry by
/// entry, for fields whose names hold no capital letters (snake case leaves
/// such names as they are).
pub proof fn lemma_stripped(s: Seq<ABIInput>, kb: GenerateAbiPropertiesType, pb: Option<Seq<char>>, po: Option<Seq<char>>)
    requires
        is_bare(kb),
        prefixes_agree(pb, po),
        lowercase_names(s),
    ensures
        same_stripped(flatten(s, kb, pb), flatten(s, GenerateAbiPropertiesType::Object, po)),
    decreases s,
{
    let ob = GenerateAbiPropertiesType::Object;
    if s.len() > 0 {
        lemma_stripped(s.drop_last(), kb, pb, po);
        lemma_stripped_one(s.last(), kb, pb, po);
        let a1 = flatten(s.drop_last(), kb, pb);
        let a2 = flatten_one(s.last(), kb, pb);
        let b1 = flatten(s.drop_last(), ob, po);
        let b2 = flatten_one(s.last(), ob, po);
        assert forall|i: int| 0 <= i < (a1 + a2).len() implies strip((#[trigger] (a1 + a2)[i]).value) == strip((b1 + b2)[i].value) by {
            if i < a1.len() {
                assert((a1 + a2)[i] == a1[i]);
                assert((b1 + b2)[i] == b1[i]);
            } else {
                assert((a1 + a2)[i] == a2[i - a1.len()]);
                assert((b1 + b2)[i] == b2[i - a1.len()]);
            }
        }
    }
}

/// The bare-name projection of an event's fields and its object-path
/// projection name the same fields: with quotes and separators stripped, the
/// two give the same names in the same order, hence the same set.
pub proof fn lemma_bare_object_round_trip(inputs: Seq<ABIInput>, kb: GenerateAbiPropertiesType)
    requires
        is_bare(kb),
        lowercase_names(inputs),
    ensures
        same_stripped(flatten(inputs, kb, None), flatten(inputs, GenerateAbiPropertiesType::Object, None)),
        flatten(inputs, kb, None).map_values(|p: Projected| strip(p.value)).to_set()
            == flatten(inputs, GenerateAbiPropertiesType::Object, None).map_values(|p: Projected| strip(p.value)).to_set(),
{
    lemma_stripped(inputs, kb, None, None);
    let a = flatten(inputs, kb, None).map_values(|p: Projected| strip(p.value));
    let b = flatten(inputs, GenerateAbiPropertiesType::Object, None).map_values(|p: Projected| strip(p.value));
    assert(a =~= b);
}

/// Two projections that carry the same type tags and wrappers, entry by entry.
pub open spec fn same_types(a: Seq<Projected>, b: Seq<Projected>) -> bool {
    a.len() == b.len() && forall|i: int|
        0 <= i < a.len() ==> (#[trigger] a[i]).abi_type == b[i].abi_type && a[i].wrapper == b[i].wrapper
}

proof fn lemma_same_types_one(
    input: ABIInput,
    k1: GenerateAbiPropertiesType,
    pre_a: Option<Seq<char>>,
    k2: GenerateAbiPropertiesType,
    pre_b: Option<Seq<char>>,
)
    ensures
        same_types(flatten_one(input, k1, pre_a), flatten_one(input, k2, pre_b)),
    decreases input,
{
    match input.components {
        Some(c) => {
            lemma_same_types(c@, k1, Some(path_of(k1, pre_a, input.name@)), k2, Some(path_of(k2, pre_b, input.name@)));
        },
        None => {},
    }
}

/// Whatever their kinds and prefixes, two projections of the same fields list
/// the same leaves in the same order: entry by entry they carry the same type
/// tag and the same storage wrapper.
pub proof fn lemma_same_types(
    s: Seq<ABIInput>,
    k1: GenerateAbiPropertiesType,
    pre_a: Option<Seq<char>>,
    k2: GenerateAbiPropertiesType,
    pre_b: Option<Seq<char>>,
)
    ensures
        same_types(flatten(s, k1, pre_a), flatten(s, k2, pre_b)),
    decreases s,
{
    if s.len() > 0 {
        lemma_same_types(s.drop_last(), k1, pre_a, k2, pre_b);
        lemma_same_types_one(s.last(), k1, pre_a, k2, pre_b);
        let a1 = flatten(s.drop_last(), k1, pre_a);
        let a2 = flatten_one(s.last(), k1, pre_a);
        let b1 = flatten(s.drop_last(), k2, pre_b);
        let b2 = flatten_one(s.last(), k2, pre_b);
        assert forall|i: int| 0 <= i < (a1 + a2).len() implies (#[trigger] (a1 + a2)[i]).abi_type == (b1
            + b2)[i].abi_type && (a1 + a2)[i].wrapper == (b1 + b2)[i].wrapper by {
            if i < a1.len() {
                assert((a1 + a2)[i] == a1[i]);
                assert((b1 + b2)[i] == b1[i]);
            } else {
                assert((a1 + a2)[i] == a2[i - a1.len()]);
                assert((b1 + b2)[i] == b2[i - a1.len()]);
            }
        }
    }
}

} // verus!
