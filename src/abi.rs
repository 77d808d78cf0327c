use vstd::prelude::*;
use vstd::string::*;
use crate::naming::{starts_with, str_eq};
use crate::text::string_views;

verus! {

/// One entry of a contract's interface schema: a function, an event or another kind.
#[derive(Debug, Clone)]
pub struct ABIItem {
    pub inputs: Vec<ABIInput>,
    pub name: String,
    pub type_: String,
}

/// One named, typed field of a schema entry; a record-typed field holds its
/// children in `components`.
#[derive(Debug)]
pub struct ABIInput {
    pub indexed: Option<bool>,
    pub name: String,
    pub type_: String,
    pub components: Option<Vec<ABIInput>>,
}

impl ABIInput {
    /// A deep copy: the same name, type tag and indexed flag, and a copy of
    /// each child, in order.
    pub fn duplicate(&self) -> (r: ABIInput)
        ensures
            r.indexed == self.indexed,
            r.name@ == self.name@,
            r.type_@ == self.type_@,
            r.components is Some <==> self.components is Some,
            self.components is Some ==> r.components->Some_0@.len() == self.components->Some_0@.len(),
        decreases *self,
    {
        let components = match &self.components {
            Some(c) => Some(duplicate_all(c.as_slice())),
            None => None,
        };
        ABIInput { indexed: self.indexed, name: self.name.clone(), type_: self.type_.clone(), components }
    }
}

/// Deep copies of `inputs`, in order.
fn duplicate_all(inputs: &[ABIInput]) -> (r: Vec<ABIInput>)
    ensures
        r@.len() == inputs@.len(),
    decreases inputs@,
{
    let mut out: Vec<ABIInput> = Vec::new();
    let mut i: usize = 0;
    while i < inputs.len()
        invariant
            i <= inputs@.len(),
            out@.len() == i,
        decreases inputs@.len() - i,
    {
        proof {
            assert(decreases_to!(inputs@ => inputs@[i as int]));
        }
        out.push(inputs[i].duplicate());
        i = i + 1;
    }
    out
}

impl Clone for ABIInput {
    fn clone(&self) -> Self {
        self.duplicate()
    }
}

/// The array part that follows `tuple` in a record type tag (`tuple[]` gives `[]`).
pub open spec fn tuple_suffix(t: Seq<char>) -> Seq<char> {
    if t.len() >= 5 && t.subrange(0, 5) == "tuple"@ {
        t.subrange(5, t.len() as int)
    } else {
        Seq::empty()
    }
}

/// The canonical type of one field: a record renders as its children's types,
/// comma-joined in parentheses, followed by its array suffix; any other field
/// renders as its type tag.
pub open spec fn param_type_of(input: ABIInput) -> Seq<char>
    decreases input,
{
    match input.components {
        Some(c) => "("@ + types_joined(c@) + ")"@ + tuple_suffix(input.type_@),
        None => input.type_@,
    }
}

/// The canonical types of a sequence of fields, joined by commas.
pub open spec fn types_joined(s: Seq<ABIInput>) -> Seq<char>
    decreases s,
{
    if s.len() == 0 {
        Seq::empty()
    } else if s.len() == 1 {
        param_type_of(s[0])
    } else {
        types_joined(s.drop_last()) + ","@ + param_type_of(s.last())
    }
}

/// Renders the canonical type of one field.
fn format_param_type(input: &ABIInput) -> (r: String)
    ensures
        r@ == param_type_of(*input),
    decreases *input,
{
    match &input.components {
        Some(c) => {
            let inner = join_param_types(c.as_slice());
            let mut out = String::from_str("(");
            out.append(inner.as_str());
            out.append(")");
            let t = input.type_.as_str();
            proof {
                reveal_strlit("tuple");
            }
            if starts_with(t, "tuple") {
                let n = t.unicode_len();
                let suffix = t.substring_char(5, n);
                out.append(suffix);
            } else {
                proof {
                    assert(!(t@.len() >= 5 && t@.subrange(0, 5) == "tuple"@));
                }
            }
            out
        },
        None => String::from_str(input.type_.as_str()),
    }
}

/// Renders the canonical types of `inputs`, joined by commas.
fn join_param_types(inputs: &[ABIInput]) -> (r: String)
    ensures
        r@ == types_joined(inputs@),
    decreases inputs@,
{
    let mut out = String::new();
    let mut i: usize = 0;
    while i < inputs.len()
        invariant
            i <= inputs@.len(),
            out@ == types_joined(inputs@.subrange(0, i as int)),
        decreases inputs@.len() - i,
    {
        proof {
            assert(decreases_to!(inputs@ => inputs@[i as int]));
        }
        let t = format_param_type(&inputs[i]);
        if i > 0 {
            out.append(",");
        }
        out.append(t.as_str());
        proof {
            let next = inputs@.subrange(0, i + 1);
            assert(next.drop_last() =~= inputs@.subrange(0, i as int));
            assert(next.last() == inputs@[i as int]);
            if i == 0 {
                assert(out@ =~= types_joined(next));
            }
        }
        i = i + 1;
    }
    assert(inputs@.subrange(0, inputs@.len() as int) =~= inputs@);
    out
}

/// The canonical parameter signature of an entry: its fields' canonical types,
/// comma-joined, without the enclosing parentheses.
pub open spec fn signature_of(item: ABIItem) -> Seq<char> {
    types_joined(item.inputs@)
}

/// Renders the canonical parameter signature of an entry.
pub fn format_event_signature(item: &ABIItem) -> (r: String)
    ensures
        r@ == signature_of(*item),
{
    join_param_types(item.inputs.as_slice())
}

/// Derived, immutable description of one event.
#[derive(Debug)]
pub struct EventInfo {
    pub name: String,
    pub inputs: Vec<ABIInput>,
    pub signature: String,
    pub struct_result: String,
    pub struct_data: String,
}

/// `info` describes the event entry `item` under the signature `sig`.
pub open spec fn describes(info: EventInfo, item: ABIItem, sig: Seq<char>) -> bool {
    &&& info.name@ == item.name@
    &&& info.inputs == item.inputs
    &&& info.signature@ == sig
    &&& info.struct_result@ == item.name@ + "Result"@
    &&& info.struct_data@ == item.name@ + "Data"@
}

impl EventInfo {
    /// Builds the description of an event entry under the given signature.
    pub fn new(item: ABIItem, signature: String) -> (r: Self)
        ensures
            describes(r, item, signature@),
    {
        let struct_result = item.name.clone().concat("Result");
        let struct_data = item.name.clone().concat("Data");
        EventInfo { name: item.name, inputs: item.inputs, signature, struct_result, struct_data }
    }
}

pub open spec fn is_event(item: ABIItem) -> bool {
    item.type_@ == "event"@
}

/// The event entries of `s`, in order.
pub open spec fn events_of(s: Seq<ABIItem>) -> Seq<ABIItem>
    decreases s.len(),
{
    if s.len() == 0 {
        Seq::empty()
    } else if is_event(s.last()) {
        events_of(s.drop_last()).push(s.last())
    } else {
        events_of(s.drop_last())
    }
}

/// Describes every event entry of the schema, in order, each under its
/// canonical signature; other entries are passed over.
pub fn extract_event_names_and_signatures_from_abi(abi_json: Vec<ABIItem>) -> (r: Vec<EventInfo>)
    ensures
        r@.len() == events_of(abi_json@).len(),
        forall|j: int|
            0 <= j < r@.len() ==> describes(
                #[trigger] r@[j],
                events_of(abi_json@)[j],
                signature_of(events_of(abi_json@)[j]),
            ),
{
    let ghost orig = abi_json@;
    let mut items = abi_json;
    let mut out: Vec<EventInfo> = Vec::new();
    let ghost mut k: int = 0;
    while items.len() > 0
        invariant
            0 <= k <= orig.len(),
            items@ == orig.subrange(k, orig.len() as int),
            out@.len() == events_of(orig.subrange(0, k)).len(),
            forall|j: int|
                0 <= j < out@.len() ==> describes(
                    #[trigger] out@[j],
                    events_of(orig.subrange(0, k))[j],
                    signature_of(events_of(orig.subrange(0, k))[j]),
                ),
        decreases items@.len(),
    {
        let item = items.remove(0);
        proof {
            assert(item == orig[k]);
            assert(orig.subrange(0, k + 1).drop_last() =~= orig.subrange(0, k));
            assert(orig.subrange(0, k + 1).last() == orig[k]);
        }
        if str_eq(item.type_.as_str(), "event") {
            let sig = format_event_signature(&item);
            let info = EventInfo::new(item, sig);
            out.push(info);
        }
        proof {
            k = k + 1;
            assert(items@ =~= orig.subrange(k, orig.len() as int));
        }
    }
    assert(orig.subrange(0, orig.len() as int) =~= orig);
    out
}

/// Whether `n` is one of `names`.
pub open spec fn listed(names: Seq<Seq<char>>, n: Seq<char>) -> bool {
    names.contains(n)
}

/// Whether `n` is one of `names`.
pub fn name_listed(names: &Vec<String>, n: &str) -> (r: bool)
    ensures
        r == listed(string_views(names@), n@),
{
    let mut i: usize = 0;
    while i < names.len()
        invariant
            i <= names@.len(),
            forall|j: int| 0 <= j < i ==> (#[trigger] names@[j])@ != n@,
        decreases names@.len() - i,
    {
        if str_eq(names[i].as_str(), n) {
            assert(string_views(names@)[i as int] == n@);
            return true;
        }
        i = i + 1;
    }
    assert forall|j: int| 0 <= j < string_views(names@).len() implies string_views(names@)[j] != n@ by {
        assert(names@[j]@ != n@);
    }
    false
}

/// Whether an entry stays: with `events_only`, an event whose name is listed;
/// otherwise, any entry that is not an event, or an event whose name is listed.
pub open spec fn kept(item: ABIItem, names: Seq<Seq<char>>, events_only: bool) -> bool {
    if events_only {
        is_event(item) && listed(names, item.name@)
    } else {
        !is_event(item) || listed(names, item.name@)
    }
}

/// The entries of `s` that stay, in order.
pub open spec fn kept_items(s: Seq<ABIItem>, names: Seq<Seq<char>>, events_only: bool) -> Seq<ABIItem>
    decreases s.len(),
{
    if s.len() == 0 {
        Seq::empty()
    } else if kept(s.last(), names, events_only) {
        kept_items(s.drop_last(), names, events_only).push(s.last())
    } else {
        kept_items(s.drop_last(), names, events_only)
    }
}

/// Keeps the entries that `kept` admits, in their order.
pub fn select_items(items: Vec<ABIItem>, names: &Vec<String>, events_only: bool) -> (r: Vec<ABIItem>)
    ensures
        r@ == kept_items(items@, string_views(names@), events_only),
{
    let ghost orig = items@;
    let mut items = items;
    let mut out: Vec<ABIItem> = Vec::new();
    let ghost mut k: int = 0;
    while items.len() > 0
        invariant
            0 <= k <= orig.len(),
            items@ == orig.subrange(k, orig.len() as int),
            out@ == kept_items(orig.subrange(0, k), string_views(names@), events_only),
        decreases items@.len(),
    {
        let item = items.remove(0);
        proof {
            assert(item == orig[k]);
            assert(orig.subrange(0, k + 1).drop_last() =~= orig.subrange(0, k));
            assert(orig.subrange(0, k + 1).last() == orig[k]);
        }
        let ev = str_eq(item.type_.as_str(), "event");
        let named = name_listed(names, item.name.as_str());
        let keep = if events_only { ev && named } else { !ev || named };
        if keep {
            out.push(item);
        }
        proof {
            k = k + 1;
            assert(items@ =~= orig.subrange(k, orig.len() as int));
        }
    }
    assert(orig.subrange(0, orig.len() as int) =~= orig);
    out
}

/// Narrows a parsed schema to an optional allow-list of event names: entries
/// that are not events always stay, events stay when listed; without a list
/// every entry stays.
pub fn filter_abi_items(items: Vec<ABIItem>, include_events: &Option<Vec<String>>) -> (r: Vec<ABIItem>)
    ensures
        match include_events {
            Some(names) => r@ == kept_items(items@, string_views(names@), false),
            None => r@ == items@,
        },
{
    match include_events {
        Some(names) => select_items(items, names, false),
        None => items,
    }
}

} // verus!
