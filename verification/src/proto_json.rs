//! The protobuf JSON form of the protocol's messages: which fields are
//! written, under which names, and how a message is put back together from
//! the fields that were read.
//!
//! A field at its default value (zero, empty, false) is left out when
//! written and read back as that default when absent. Each field is accepted
//! under its JSON name and under its protobuf name; a field given twice is
//! refused.

use vstd::prelude::*;

use crate::proto::{ConsensusState, ErrorResponse};
use crate::text::{camel_from, decimal, lower_camel_case, same_text, u64_to_decimal};

verus! {

/// A field value as written in JSON.
#[derive(Clone, Debug, PartialEq, Eq)]
pub enum JsonValue {
    Text(String),
    Flag(bool),
}

/// Why a message could not be read back.
#[derive(Clone, Debug, PartialEq, Eq)]
pub enum ProtoJsonError {
    /// The field with this JSON name was given twice.
    DuplicateField(&'static str),
}

/// The standard base64 alphabet, indexed by the value of a six-bit group.
pub const BASE64_ALPHABET: [char; 64] = [
    'A', 'B', 'C', 'D', 'E', 'F', 'G', 'H', 'I', 'J', 'K', 'L', 'M', 'N', 'O', 'P', 'Q', 'R',
    'S', 'T', 'U', 'V', 'W', 'X', 'Y', 'Z', 'a', 'b', 'c', 'd', 'e', 'f', 'g', 'h', 'i', 'j',
    'k', 'l', 'm', 'n', 'o', 'p', 'q', 'r', 's', 't', 'u', 'v', 'w', 'x', 'y', 'z', '0', '1',
    '2', '3', '4', '5', '6', '7', '8', '9', '+', '/',
];

/// The base64 character of the six-bit value `v`.
pub open spec fn base64_char(v: int) -> char {
    BASE64_ALPHABET@[v]
}

/// Standard base64 with padding: each group of three bytes becomes four
/// characters, six bits each, most significant first; a last group of one
/// or two bytes is filled with zero bits and padded with `=` to four
/// characters.
pub open spec fn base64_standard(bytes: Seq<u8>) -> Seq<char>
    decreases bytes.len(),
{
    if bytes.len() == 0 {
        Seq::empty()
    } else {
        let b0 = bytes[0] as int;
        let b1 = if bytes.len() > 1 { bytes[1] as int } else { 0 };
        let b2 = if bytes.len() > 2 { bytes[2] as int } else { 0 };
        let c0 = base64_char(b0 / 4);
        let c1 = base64_char((b0 % 4) * 16 + b1 / 16);
        let c2 = base64_char((b1 % 16) * 4 + b2 / 64);
        let c3 = base64_char(b2 % 64);
        if bytes.len() == 1 {
            seq![c0, c1, '=', '=']
        } else if bytes.len() == 2 {
            seq![c0, c1, c2, '=']
        } else {
            seq![c0, c1, c2, c3] + base64_standard(bytes.skip(3))
        }
    }
}

/// Standard padded base64 text of `bytes`, as protobuf JSON writes bytes
/// fields.
#[verifier::external_body]
#[allow(deprecated)]
fn base64_encode(bytes: &[u8]) -> (s: String)
    ensures
        s@ == base64_standard(bytes@),
{
    pbjson::private::base64::encode(bytes)
}

/// A field of the consensus state.
#[derive(Clone, Copy, Debug, PartialEq, Eq)]
pub enum ConsensusStateField {
    Epoch,
    LastVotedRound,
    PreferredRound,
    Waypoint,
    InValidatorSet,
}

impl ConsensusStateField {
    /// The name written in JSON.
    pub open spec fn spec_json_name(self) -> Seq<char> {
        match self {
            ConsensusStateField::Epoch => "epoch"@,
            ConsensusStateField::LastVotedRound => "lastVotedRound"@,
            ConsensusStateField::PreferredRound => "preferredRound"@,
            ConsensusStateField::Waypoint => "waypoint"@,
            ConsensusStateField::InValidatorSet => "inValidatorSet"@,
        }
    }

    /// Whether `name` names this field when read: its JSON name or its
    /// protobuf name.
    pub open spec fn accepts(self, name: Seq<char>) -> bool {
        match self {
            ConsensusStateField::Epoch => name == "epoch"@,
            ConsensusStateField::LastVotedRound => name == "lastVotedRound"@ || name
                == "last_voted_round"@,
            ConsensusStateField::PreferredRound => name == "preferredRound"@ || name
                == "preferred_round"@,
            ConsensusStateField::Waypoint => name == "waypoint"@,
            ConsensusStateField::InValidatorSet => name == "inValidatorSet"@ || name
                == "in_validator_set"@,
        }
    }

    /// The name written in JSON.
    pub fn json_name(&self) -> (s: &'static str)
        ensures
            s@ == self.spec_json_name(),
    {
        match self {
            ConsensusStateField::Epoch => "epoch",
            ConsensusStateField::LastVotedRound => "lastVotedRound",
            ConsensusStateField::PreferredRound => "preferredRound",
            ConsensusStateField::Waypoint => "waypoint",
            ConsensusStateField::InValidatorSet => "inValidatorSet",
        }
    }

    /// The field that `name` names, if any.
    pub fn from_json_name(name: &str) -> (r: Option<ConsensusStateField>)
        ensures
            match r {
                Some(f) => f.accepts(name@),
                None => forall|f: ConsensusStateField| !#[trigger] f.accepts(name@),
            },
    {
        if same_text(name, "epoch") {
            Some(ConsensusStateField::Epoch)
        } else if same_text(name, "lastVotedRound") || same_text(name, "last_voted_round") {
            Some(ConsensusStateField::LastVotedRound)
        } else if same_text(name, "preferredRound") || same_text(name, "preferred_round") {
            Some(ConsensusStateField::PreferredRound)
        } else if same_text(name, "waypoint") {
            Some(ConsensusStateField::Waypoint)
        } else if same_text(name, "inValidatorSet") || same_text(name, "in_validator_set") {
            Some(ConsensusStateField::InValidatorSet)
        } else {
            None
        }
    }
}

/// A field of the consensus state with its value.
#[derive(Clone, Debug, PartialEq, Eq)]
pub enum ConsensusStateEntry {
    Epoch(u64),
    LastVotedRound(u64),
    PreferredRound(u64),
    Waypoint(Vec<u8>),
    InValidatorSet(bool),
}

impl ConsensusStateEntry {
    /// The field that the entry gives.
    pub open spec fn spec_field(self) -> ConsensusStateField {
        match self {
            ConsensusStateEntry::Epoch(_) => ConsensusStateField::Epoch,
            ConsensusStateEntry::LastVotedRound(_) => ConsensusStateField::LastVotedRound,
            ConsensusStateEntry::PreferredRound(_) => ConsensusStateField::PreferredRound,
            ConsensusStateEntry::Waypoint(_) => ConsensusStateField::Waypoint,
            ConsensusStateEntry::InValidatorSet(_) => ConsensusStateField::InValidatorSet,
        }
    }

    /// The field this entry gives.
    pub fn field(&self) -> (f: ConsensusStateField)
        ensures
            f == self.spec_field(),
    {
        match self {
            ConsensusStateEntry::Epoch(_) => ConsensusStateField::Epoch,
            ConsensusStateEntry::LastVotedRound(_) => ConsensusStateField::LastVotedRound,
            ConsensusStateEntry::PreferredRound(_) => ConsensusStateField::PreferredRound,
            ConsensusStateEntry::Waypoint(_) => ConsensusStateField::Waypoint,
            ConsensusStateEntry::InValidatorSet(_) => ConsensusStateField::InValidatorSet,
        }
    }

    /// Whether this entry gives the value that `s` holds in its field.
    pub open spec fn agrees_with(self, s: ConsensusState) -> bool {
        match self {
            ConsensusStateEntry::Epoch(v) => v == s.epoch,
            ConsensusStateEntry::LastVotedRound(v) => v == s.last_voted_round,
            ConsensusStateEntry::PreferredRound(v) => v == s.preferred_round,
            ConsensusStateEntry::Waypoint(w) => w@ == s.waypoint@,
            ConsensusStateEntry::InValidatorSet(b) => b == s.in_validator_set,
        }
    }

    /// How the value is written in JSON: numbers as decimal text, bytes as
    /// base64 text.
    pub open spec fn renders_as(self, v: JsonValue) -> bool {
        match self {
            ConsensusStateEntry::Epoch(n) => v matches JsonValue::Text(t) && t@ == decimal(n as nat),
            ConsensusStateEntry::LastVotedRound(n) => v matches JsonValue::Text(t) && t@ == decimal(
                n as nat,
            ),
            ConsensusStateEntry::PreferredRound(n) => v matches JsonValue::Text(t) && t@ == decimal(
                n as nat,
            ),
            ConsensusStateEntry::Waypoint(w) => v matches JsonValue::Text(t) && t@ == base64_standard(
                w@,
            ),
            ConsensusStateEntry::InValidatorSet(b) => v == JsonValue::Flag(b),
        }
    }

    /// The value as written in JSON (see `renders_as`).
    pub fn render(&self) -> (v: JsonValue)
        ensures
            self.renders_as(v),
    {
        match self {
            ConsensusStateEntry::Epoch(n) => JsonValue::Text(u64_to_decimal(*n)),
            ConsensusStateEntry::LastVotedRound(n) => JsonValue::Text(u64_to_decimal(*n)),
            ConsensusStateEntry::PreferredRound(n) => JsonValue::Text(u64_to_decimal(*n)),
            ConsensusStateEntry::Waypoint(w) => JsonValue::Text(base64_encode(w.as_slice())),
            ConsensusStateEntry::InValidatorSet(b) => JsonValue::Flag(*b),
        }
    }
}

impl ConsensusStateField {
    /// The position of the field in the message.
    pub open spec fn rank(self) -> int {
        match self {
            ConsensusStateField::Epoch => 0,
            ConsensusStateField::LastVotedRound => 1,
            ConsensusStateField::PreferredRound => 2,
            ConsensusStateField::Waypoint => 3,
            ConsensusStateField::InValidatorSet => 4,
        }
    }
}

/// Whether `s` holds a value other than the default in the field `f`; only
/// such fields are written.
pub open spec fn is_set(s: ConsensusState, f: ConsensusStateField) -> bool {
    match f {
        ConsensusStateField::Epoch => s.epoch != 0,
        ConsensusStateField::LastVotedRound => s.last_voted_round != 0,
        ConsensusStateField::PreferredRound => s.preferred_round != 0,
        ConsensusStateField::Waypoint => s.waypoint@.len() != 0,
        ConsensusStateField::InValidatorSet => s.in_validator_set,
    }
}

/// Whether some entry of `es` gives the field `f`.
pub open spec fn has_field(es: Seq<ConsensusStateEntry>, f: ConsensusStateField) -> bool {
    exists|i: int| 0 <= i < es.len() && #[trigger] es[i].spec_field() == f
}

/// Whether the entries come in the order of the message, each field at
/// most once.
pub open spec fn in_message_order(es: Seq<ConsensusStateEntry>) -> bool {
    forall|i: int, j: int|
        0 <= i < j < es.len() ==> (#[trigger] es[i].spec_field()).rank() < (
        #[trigger] es[j].spec_field()).rank()
}

/// Whether no two entries give the same field.
pub open spec fn distinct_fields(es: Seq<ConsensusStateEntry>) -> bool {
    forall|i: int, j: int|
        0 <= i < j < es.len() ==> #[trigger] es[i].spec_field() != #[trigger] es[j].spec_field()
}

/// The last entry of `es` that gives the field `f`.
pub open spec fn last_entry(es: Seq<ConsensusStateEntry>, f: ConsensusStateField) -> Option<
    ConsensusStateEntry,
>
    decreases es.len(),
{
    if es.len() == 0 {
        None
    } else if es.last().spec_field() == f {
        Some(es.last())
    } else {
        last_entry(es.drop_last(), f)
    }
}

/// The number an entry carries (zero for entries that carry none).
pub open spec fn entry_number(e: Option<ConsensusStateEntry>) -> u64 {
    match e {
        Some(ConsensusStateEntry::Epoch(v)) => v,
        Some(ConsensusStateEntry::LastVotedRound(v)) => v,
        Some(ConsensusStateEntry::PreferredRound(v)) => v,
        _ => 0,
    }
}

/// The bytes an entry carries (none for entries that carry none).
pub open spec fn entry_bytes(e: Option<ConsensusStateEntry>) -> Seq<u8> {
    match e {
        Some(ConsensusStateEntry::Waypoint(w)) => w@,
        _ => Seq::empty(),
    }
}

/// The flag an entry carries (false for entries that carry none).
pub open spec fn entry_flag(e: Option<ConsensusStateEntry>) -> bool {
    match e {
        Some(ConsensusStateEntry::InValidatorSet(b)) => b,
        _ => false,
    }
}

/// Whether `s` is the state that the entries `es` give: each field takes
/// the value of its entry, or its default when no entry gives it.
pub open spec fn assembled_from(s: ConsensusState, es: Seq<ConsensusStateEntry>) -> bool {
    &&& s.epoch == entry_number(last_entry(es, ConsensusStateField::Epoch))
    &&& s.last_voted_round == entry_number(last_entry(es, ConsensusStateField::LastVotedRound))
    &&& s.preferred_round == entry_number(last_entry(es, ConsensusStateField::PreferredRound))
    &&& s.waypoint@ == entry_bytes(last_entry(es, ConsensusStateField::Waypoint))
    &&& s.in_validator_set == entry_flag(last_entry(es, ConsensusStateField::InValidatorSet))
}

/// Whether `j` is the first position at which `es` repeats a field.
pub open spec fn first_repeat_at(es: Seq<ConsensusStateEntry>, j: int) -> bool {
    &&& 0 <= j < es.len()
    &&& distinct_fields(es.take(j))
    &&& exists|i: int| 0 <= i < j && es[i].spec_field() == #[trigger] es[j].spec_field()
}

/// Whether `v` is how the field `f` of `s` is written in JSON: numbers as
/// decimal text, bytes as base64 text, flags as flags.
pub open spec fn written_as(s: ConsensusState, f: ConsensusStateField, v: JsonValue) -> bool {
    match f {
        ConsensusStateField::Epoch => v matches JsonValue::Text(t) && t@ == decimal(s.epoch as nat),
        ConsensusStateField::LastVotedRound => v matches JsonValue::Text(t) && t@ == decimal(
            s.last_voted_round as nat,
        ),
        ConsensusStateField::PreferredRound => v matches JsonValue::Text(t) && t@ == decimal(
            s.preferred_round as nat,
        ),
        ConsensusStateField::Waypoint => v matches JsonValue::Text(t) && t@ == base64_standard(
            s.waypoint@,
        ),
        ConsensusStateField::InValidatorSet => v == JsonValue::Flag(s.in_validator_set),
    }
}

/// Whether `es` lists, in the order of the message, exactly the fields of
/// `s` that come before position `k` and are not at their default, with
/// their values.
pub open spec fn lists_set_fields_before(es: Seq<ConsensusStateEntry>, s: ConsensusState, k: int) -> bool {
    &&& in_message_order(es)
    &&& forall|i: int| 0 <= i < es.len() ==> (#[trigger] es[i].spec_field()).rank() < k
    &&& forall|f: ConsensusStateField| has_field(es, f) <==> (f.rank() < k && is_set(s, f))
    &&& forall|i: int| 0 <= i < es.len() ==> (#[trigger] es[i]).agrees_with(s)
}

/// Adds the entry `e` for the field at position `k` when `s` sets it.
fn push_if_set(es: &mut Vec<ConsensusStateEntry>, s: &ConsensusState, k: u8, set: bool, e: ConsensusStateEntry)
    requires
        k < 5,
        lists_set_fields_before(old(es)@, *s, k as int),
        e.spec_field().rank() == k,
        set == is_set(*s, e.spec_field()),
        e.agrees_with(*s),
    ensures
        lists_set_fields_before(final(es)@, *s, k + 1),
{
    let ghost old_es = es@;
    if set {
        es.push(e);
        assert forall|f: ConsensusStateField| f.rank() < k + 1 && is_set(*s, f) implies has_field(es@, f) by {
            if f.rank() < k + 1 && is_set(*s, f) {
                if f.rank() < k {
                    let i = choose|i: int| 0 <= i < old_es.len() && #[trigger] old_es[i].spec_field() == f;
                    assert(es@[i] == old_es[i]);
                } else {
                    assert(es@[old_es.len() as int].spec_field() == f);
                }
            }
        }
        assert forall|f: ConsensusStateField| has_field(es@, f) implies (f.rank() < k + 1 && is_set(*s, f)) by {
            let i = choose|i: int| 0 <= i < es@.len() && #[trigger] es@[i].spec_field() == f;
            if i < old_es.len() {
                assert(old_es[i] == es@[i]);
            }
        }
    } else {
        assert forall|f: ConsensusStateField| f.rank() < k + 1 && is_set(*s, f) implies has_field(es@, f) by {
            if f.rank() < k + 1 && is_set(*s, f) {
                assert(f.rank() != k) by {
                    if f.rank() == k {
                        assert(f == e.spec_field());
                    }
                }
            }
        }
    }
}

impl ConsensusState {
    /// The fields written in JSON with their values: exactly the fields not
    /// at their default, in the order of the message.
    pub fn json_entries(&self) -> (es: Vec<ConsensusStateEntry>)
        ensures
            in_message_order(es@),
            forall|f: ConsensusStateField| has_field(es@, f) <==> is_set(*self, f),
            forall|i: int| 0 <= i < es@.len() ==> (#[trigger] es@[i]).agrees_with(*self),
    {
        let mut es: Vec<ConsensusStateEntry> = Vec::new();
        push_if_set(&mut es, self, 0, self.epoch != 0, ConsensusStateEntry::Epoch(self.epoch));
        push_if_set(
            &mut es,
            self,
            1,
            self.last_voted_round != 0,
            ConsensusStateEntry::LastVotedRound(self.last_voted_round),
        );
        push_if_set(
            &mut es,
            self,
            2,
            self.preferred_round != 0,
            ConsensusStateEntry::PreferredRound(self.preferred_round),
        );
        let w = self.waypoint.clone();
        assert(w@ =~= self.waypoint@);
        push_if_set(&mut es, self, 3, self.waypoint.len() != 0, ConsensusStateEntry::Waypoint(w));
        push_if_set(
            &mut es,
            self,
            4,
            self.in_validator_set,
            ConsensusStateEntry::InValidatorSet(self.in_validator_set),
        );
        es
    }

    /// The fields written in JSON with their JSON values: exactly the
    /// fields not at their default, in the order of the message.
    pub fn json_fields(&self) -> (fs: Vec<(ConsensusStateField, JsonValue)>)
        ensures
            forall|i: int, j: int|
                0 <= i < j < fs@.len() ==> (#[trigger] fs@[i]).0.rank() < (#[trigger] fs@[j]).0.rank(),
            forall|f: ConsensusStateField|
                (exists|i: int| 0 <= i < fs@.len() && #[trigger] fs@[i].0 == f) <==> is_set(*self, f),
            forall|i: int| 0 <= i < fs@.len() ==> written_as(*self, (#[trigger] fs@[i]).0, fs@[i].1),
    {
        let es = self.json_entries();
        let mut fs: Vec<(ConsensusStateField, JsonValue)> = Vec::new();
        let mut i: usize = 0;
        while i < es.len()
            invariant
                i <= es@.len(),
                fs@.len() == i,
                forall|k: int| 0 <= k < es@.len() ==> (#[trigger] es@[k]).agrees_with(*self),
                forall|k: int|
                    0 <= k < i ==> (#[trigger] fs@[k]).0 == es@[k].spec_field() && written_as(
                        *self,
                        fs@[k].0,
                        fs@[k].1,
                    ),
            decreases es@.len() - i,
        {
            let e = &es[i];
            fs.push((e.field(), e.render()));
            i = i + 1;
        }
        assert forall|f: ConsensusStateField|
            (exists|k: int| 0 <= k < fs@.len() && #[trigger] fs@[k].0 == f) <==> is_set(*self, f) by {
            if is_set(*self, f) {
                assert(has_field(es@, f));
                let k = choose|k: int| 0 <= k < es@.len() && #[trigger] es@[k].spec_field() == f;
                assert(fs@[k].0 == f);
            }
            if exists|k: int| 0 <= k < fs@.len() && #[trigger] fs@[k].0 == f {
                let k = choose|k: int| 0 <= k < fs@.len() && #[trigger] fs@[k].0 == f;
                assert(es@[k].spec_field() == f);
            }
        }
        assert forall|a: int, b: int| 0 <= a < b < fs@.len() implies (#[trigger] fs@[a]).0.rank() < (
            #[trigger] fs@[b]).0.rank() by {
            assert(es@[a].spec_field() == fs@[a].0);
            assert(es@[b].spec_field() == fs@[b].0);
        }
        fs
    }
}

/// The last entry of `es.push(e)` for a field is `e` when it gives that
/// field, and otherwise the last entry of `es`.
proof fn lemma_last_entry_push(es: Seq<ConsensusStateEntry>, e: ConsensusStateEntry, f: ConsensusStateField)
    ensures
        last_entry(es.push(e), f) == if e.spec_field() == f {
            Some(e)
        } else {
            last_entry(es, f)
        },
        has_field(es.push(e), f) <==> (has_field(es, f) || e.spec_field() == f),
{
    assert(es.push(e).drop_last() =~= es);
    if has_field(es, f) {
        let i = choose|i: int| 0 <= i < es.len() && #[trigger] es[i].spec_field() == f;
        assert(es.push(e)[i] == es[i]);
    }
    if has_field(es.push(e), f) && e.spec_field() != f {
        let i = choose|i: int| 0 <= i < es.push(e).len() && #[trigger] es.push(e)[i].spec_field() == f;
        assert(es[i] == es.push(e)[i]);
    }
    if e.spec_field() == f {
        assert(es.push(e)[es.len() as int].spec_field() == f);
    }
}

/// The last entry for a field that only the entry at `k` gives is that entry.
proof fn lemma_last_entry_unique(es: Seq<ConsensusStateEntry>, f: ConsensusStateField, k: int)
    requires
        0 <= k < es.len(),
        es[k].spec_field() == f,
        forall|j: int| 0 <= j < es.len() && j != k ==> (#[trigger] es[j]).spec_field() != f,
    ensures
        last_entry(es, f) == Some(es[k]),
    decreases es.len(),
{
    if k != es.len() - 1 {
        assert(es.last() == es[es.len() - 1]);
        let init = es.drop_last();
        assert forall|j: int| 0 <= j < init.len() && j != k implies (#[trigger] init[j]).spec_field()
            != f by {
            assert(init[j] == es[j]);
        }
        lemma_last_entry_unique(init, f, k);
        assert(init[k] == es[k]);
    }
}

/// No entry gives a field that no entry names.
proof fn lemma_last_entry_none(es: Seq<ConsensusStateEntry>, f: ConsensusStateField)
    requires
        !has_field(es, f),
    ensures
        last_entry(es, f) is None,
    decreases es.len(),
{
    if es.len() > 0 {
        let init = es.drop_last();
        assert(es[es.len() - 1].spec_field() != f);
        if has_field(init, f) {
            let i = choose|i: int| 0 <= i < init.len() && #[trigger] init[i].spec_field() == f;
            assert(es[i] == init[i]);
        }
        lemma_last_entry_none(init, f);
    }
}

/// The last entry for a field, if any, gives that field.
proof fn lemma_last_entry_field(es: Seq<ConsensusStateEntry>, f: ConsensusStateField)
    ensures
        last_entry(es, f) matches Some(e) ==> e.spec_field() == f,
        last_entry(es, f) is Some ==> has_field(es, f),
    decreases es.len(),
{
    if es.len() > 0 {
        let init = es.drop_last();
        lemma_last_entry_field(init, f);
        if es.last().spec_field() == f {
            assert(es[es.len() - 1].spec_field() == f);
        } else if has_field(init, f) {
            let i = choose|i: int| 0 <= i < init.len() && #[trigger] init[i].spec_field() == f;
            assert(es[i] == init[i]);
        }
    }
}

/// The fields of a consensus state read so far.
pub struct ConsensusStateBuilder {
    epoch: Option<u64>,
    last_voted_round: Option<u64>,
    preferred_round: Option<u64>,
    waypoint: Option<Vec<u8>>,
    in_validator_set: Option<bool>,
}

impl ConsensusStateBuilder {
    /// Whether the builder holds what the entries `es`, read in order, give.
    pub closed spec fn holds(self, es: Seq<ConsensusStateEntry>) -> bool {
        &&& self.epoch == if has_field(es, ConsensusStateField::Epoch) {
            Some(entry_number(last_entry(es, ConsensusStateField::Epoch)))
        } else {
            None
        }
        &&& self.last_voted_round == if has_field(es, ConsensusStateField::LastVotedRound) {
            Some(entry_number(last_entry(es, ConsensusStateField::LastVotedRound)))
        } else {
            None
        }
        &&& self.preferred_round == if has_field(es, ConsensusStateField::PreferredRound) {
            Some(entry_number(last_entry(es, ConsensusStateField::PreferredRound)))
        } else {
            None
        }
        &&& (self.waypoint is Some <==> has_field(es, ConsensusStateField::Waypoint))
        &&& (self.waypoint matches Some(w) ==> w@ == entry_bytes(
            last_entry(es, ConsensusStateField::Waypoint),
        ))
        &&& self.in_validator_set == if has_field(es, ConsensusStateField::InValidatorSet) {
            Some(entry_flag(last_entry(es, ConsensusStateField::InValidatorSet)))
        } else {
            None
        }
    }

    /// A builder that has read nothing.
    pub fn new() -> (b: Self)
        ensures
            b.holds(Seq::empty()),
    {
        ConsensusStateBuilder {
            epoch: None,
            last_voted_round: None,
            preferred_round: None,
            waypoint: None,
            in_validator_set: None,
        }
    }

    /// Whether the field `f` has been read.
    pub fn contains(&self, f: ConsensusStateField) -> (r: bool)
        ensures
            forall|es: Seq<ConsensusStateEntry>| #[trigger] self.holds(es) ==> r == has_field(es, f),
    {
        match f {
            ConsensusStateField::Epoch => self.epoch.is_some(),
            ConsensusStateField::LastVotedRound => self.last_voted_round.is_some(),
            ConsensusStateField::PreferredRound => self.preferred_round.is_some(),
            ConsensusStateField::Waypoint => self.waypoint.is_some(),
            ConsensusStateField::InValidatorSet => self.in_validator_set.is_some(),
        }
    }

    /// Reads one more entry; a field read before is refused and the builder
    /// left as it was.
    pub fn accept(&mut self, e: ConsensusStateEntry) -> (r: Result<(), ProtoJsonError>)
        ensures
            forall|es: Seq<ConsensusStateEntry>| #[trigger] old(self).holds(es) ==> if has_field(es, e.spec_field()) {
                r matches Err(ProtoJsonError::DuplicateField(n)) && n@ == e.spec_field().spec_json_name()
                    && final(self).holds(es)
            } else {
                r is Ok && final(self).holds(es.push(e))
            },
    {
        let f = e.field();
        if self.contains(f) {
            return Err(ProtoJsonError::DuplicateField(f.json_name()));
        }
        let ghost old_self = *self;
        match e {
            ConsensusStateEntry::Epoch(v) => {
                self.epoch = Some(v);
            },
            ConsensusStateEntry::LastVotedRound(v) => {
                self.last_voted_round = Some(v);
            },
            ConsensusStateEntry::PreferredRound(v) => {
                self.preferred_round = Some(v);
            },
            ConsensusStateEntry::Waypoint(w) => {
                self.waypoint = Some(w);
            },
            ConsensusStateEntry::InValidatorSet(b) => {
                self.in_validator_set = Some(b);
            },
        }
        assert forall|es: Seq<ConsensusStateEntry>| #[trigger] old_self.holds(es) implies self.holds(es.push(e)) by {
            lemma_last_entry_push(es, e, ConsensusStateField::Epoch);
            lemma_last_entry_push(es, e, ConsensusStateField::LastVotedRound);
            lemma_last_entry_push(es, e, ConsensusStateField::PreferredRound);
            lemma_last_entry_push(es, e, ConsensusStateField::Waypoint);
            lemma_last_entry_push(es, e, ConsensusStateField::InValidatorSet);
        }
        Ok(())
    }

    /// The consensus state read: each field as read, or its default.
    pub fn finish(self) -> (s: ConsensusState)
        ensures
            forall|es: Seq<ConsensusStateEntry>| #[trigger] self.holds(es) ==> assembled_from(s, es),
    {
        let ghost this = self;
        let epoch = match self.epoch {
            Some(v) => v,
            None => 0,
        };
        let last_voted_round = match self.last_voted_round {
            Some(v) => v,
            None => 0,
        };
        let preferred_round = match self.preferred_round {
            Some(v) => v,
            None => 0,
        };
        let waypoint = match self.waypoint {
            Some(w) => w,
            None => Vec::new(),
        };
        let in_validator_set = match self.in_validator_set {
            Some(b) => b,
            None => false,
        };
        let s = ConsensusState { epoch, last_voted_round, preferred_round, waypoint, in_validator_set };
        assert forall|es: Seq<ConsensusStateEntry>| #[trigger] this.holds(es) implies assembled_from(s, es) by {
            if !has_field(es, ConsensusStateField::Epoch) {
                lemma_last_entry_none(es, ConsensusStateField::Epoch);
            }
            if !has_field(es, ConsensusStateField::LastVotedRound) {
                lemma_last_entry_none(es, ConsensusStateField::LastVotedRound);
            }
            if !has_field(es, ConsensusStateField::PreferredRound) {
                lemma_last_entry_none(es, ConsensusStateField::PreferredRound);
            }
            if !has_field(es, ConsensusStateField::Waypoint) {
                lemma_last_entry_none(es, ConsensusStateField::Waypoint);
                assert(s.waypoint@ =~= Seq::<u8>::empty());
            }
            if !has_field(es, ConsensusStateField::InValidatorSet) {
                lemma_last_entry_none(es, ConsensusStateField::InValidatorSet);
            }
        }
        s
    }
}

impl ConsensusState {
    /// The consensus state that the entries `entries`, read in order, give:
    /// each field takes the value of its entry or its default; a field given
    /// twice is refused at its second entry.
    pub fn from_json_entries(entries: Vec<ConsensusStateEntry>) -> (r: Result<
        ConsensusState,
        ProtoJsonError,
    >)
        ensures
            r is Ok <==> distinct_fields(entries@),
            r matches Ok(s) ==> assembled_from(s, entries@),
            r matches Err(ProtoJsonError::DuplicateField(n)) ==> exists|j: int|
                first_repeat_at(entries@, j) && n@ == (#[trigger] entries@[j]).spec_field().spec_json_name(),
    {
        let ghost all = entries@;
        let mut rest = entries;
        let mut builder = ConsensusStateBuilder::new();
        let ghost mut k: int = 0;
        assert(all.take(0) =~= Seq::<ConsensusStateEntry>::empty());
        while rest.len() > 0
            invariant
                all == entries@,
                0 <= k <= all.len(),
                rest@ =~= all.skip(k),
                builder.holds(all.take(k)),
                distinct_fields(all.take(k)),
            decreases rest@.len(),
        {
            let e = rest.remove(0);
            assert(e == all[k]);
            assert(all.take(k + 1) =~= all.take(k).push(e));
            let ghost prefix = all.take(k);
            match builder.accept(e) {
                Ok(()) => {
                    assert(!has_field(prefix, all[k].spec_field()));
                    assert forall|i: int, j: int| 0 <= i < j < all.take(k + 1).len() implies #[trigger] all.take(
                        k + 1,
                    )[i].spec_field() != #[trigger] all.take(k + 1)[j].spec_field() by {
                        if j == k {
                            assert(all.take(k + 1)[i] == prefix[i]);
                        } else {
                            assert(all.take(k + 1)[i] == prefix[i]);
                            assert(all.take(k + 1)[j] == prefix[j]);
                        }
                    }
                    proof {
                        k = k + 1;
                    }
                },
                Err(err) => {
                    assert(has_field(prefix, all[k].spec_field()));
                    let ghost i = choose|i: int| 0 <= i < prefix.len() && #[trigger] prefix[i].spec_field() == all[k].spec_field();
                    assert(prefix[i] == all[i]);
                    assert(first_repeat_at(all, k));
                    assert(!distinct_fields(all)) by {
                        assert(all[i].spec_field() == all[k].spec_field());
                    }
                    return Err(err);
                },
            }
        }
        assert(all.take(k) =~= all);
        Ok(builder.finish())
    }
}

/// The entries written for a consensus state read back as that state: they
/// never name a field twice, and each field takes the value it had.
pub proof fn lemma_json_round_trip(s: ConsensusState, es: Seq<ConsensusStateEntry>)
    requires
        in_message_order(es),
        forall|f: ConsensusStateField| has_field(es, f) <==> is_set(s, f),
        forall|i: int| 0 <= i < es.len() ==> (#[trigger] es[i]).agrees_with(s),
    ensures
        distinct_fields(es),
        assembled_from(s, es),
{
    assert forall|i: int, j: int| 0 <= i < j < es.len() implies #[trigger] es[i].spec_field()
        != #[trigger] es[j].spec_field() by {
        assert(es[i].spec_field().rank() < es[j].spec_field().rank());
    }
    lemma_field_read_back(s, es, ConsensusStateField::Epoch);
    lemma_field_read_back(s, es, ConsensusStateField::LastVotedRound);
    lemma_field_read_back(s, es, ConsensusStateField::PreferredRound);
    lemma_field_read_back(s, es, ConsensusStateField::Waypoint);
    lemma_field_read_back(s, es, ConsensusStateField::InValidatorSet);
}

proof fn lemma_field_read_back(s: ConsensusState, es: Seq<ConsensusStateEntry>, f: ConsensusStateField)
    requires
        in_message_order(es),
        forall|g: ConsensusStateField| has_field(es, g) <==> is_set(s, g),
        forall|i: int| 0 <= i < es.len() ==> (#[trigger] es[i]).agrees_with(s),
    ensures
        match f {
            ConsensusStateField::Epoch => s.epoch == entry_number(last_entry(es, f)),
            ConsensusStateField::LastVotedRound => s.last_voted_round == entry_number(last_entry(es, f)),
            ConsensusStateField::PreferredRound => s.preferred_round == entry_number(last_entry(es, f)),
            ConsensusStateField::Waypoint => s.waypoint@ == entry_bytes(last_entry(es, f)),
            ConsensusStateField::InValidatorSet => s.in_validator_set == entry_flag(last_entry(es, f)),
        },
{
    if has_field(es, f) {
        let k = choose|k: int| 0 <= k < es.len() && #[trigger] es[k].spec_field() == f;
        assert forall|j: int| 0 <= j < es.len() && j != k implies (#[trigger] es[j]).spec_field() != f by {
            if j < k {
                assert(es[j].spec_field().rank() < es[k].spec_field().rank());
            } else {
                assert(es[k].spec_field().rank() < es[j].spec_field().rank());
            }
        }
        lemma_last_entry_unique(es, f, k);
        assert(es[k].agrees_with(s));
    } else {
        lemma_last_entry_none(es, f);
        if f == ConsensusStateField::Waypoint {
            assert(s.waypoint@ =~= Seq::<u8>::empty());
        }
    }
}

/// A field of a refusal.
#[derive(Clone, Copy, Debug, PartialEq, Eq)]
pub enum ErrorResponseField {
    ErrorType,
    Message,
}

impl ErrorResponseField {
    /// The name written in JSON.
    pub open spec fn spec_json_name(self) -> Seq<char> {
        match self {
            ErrorResponseField::ErrorType => "errorType"@,
            ErrorResponseField::Message => "message"@,
        }
    }

    /// Whether `name` names this field when read: its JSON name or its
    /// protobuf name.
    pub open spec fn accepts(self, name: Seq<char>) -> bool {
        match self {
            ErrorResponseField::ErrorType => name == "errorType"@ || name == "error_type"@,
            ErrorResponseField::Message => name == "message"@,
        }
    }

    /// The name written in JSON.
    pub fn json_name(&self) -> (s: &'static str)
        ensures
            s@ == self.spec_json_name(),
    {
        match self {
            ErrorResponseField::ErrorType => "errorType",
            ErrorResponseField::Message => "message",
        }
    }

    /// The field that `name` names, if any.
    pub fn from_json_name(name: &str) -> (r: Option<ErrorResponseField>)
        ensures
            match r {
                Some(f) => f.accepts(name@),
                None => forall|f: ErrorResponseField| !#[trigger] f.accepts(name@),
            },
    {
        if same_text(name, "errorType") || same_text(name, "error_type") {
            Some(ErrorResponseField::ErrorType)
        } else if same_text(name, "message") {
            Some(ErrorResponseField::Message)
        } else {
            None
        }
    }
}

impl ErrorResponse {
    /// The fields written in JSON with their texts (see
    /// `written_error_fields`).
    pub fn json_fields(&self) -> (fs: Vec<(ErrorResponseField, String)>)
        ensures
            field_texts(fs@) == written_error_fields(*self),
    {
        let mut fs: Vec<(ErrorResponseField, String)> = Vec::new();
        if self.error_type.as_str().unicode_len() != 0 {
            fs.push((ErrorResponseField::ErrorType, self.error_type.clone()));
        }
        if self.message.as_str().unicode_len() != 0 {
            fs.push((ErrorResponseField::Message, self.message.clone()));
        }
        assert(field_texts(fs@) =~= written_error_fields(*self));
        fs
    }

    /// The refusal that the fields `fields`, read in order, give: each field
    /// takes its text, or is empty when absent; a field given twice is
    /// refused at its second appearance (see `read_error_fields`).
    pub fn from_json_fields(fields: Vec<(ErrorResponseField, String)>) -> (r: Result<
        ErrorResponse,
        ProtoJsonError,
    >)
        ensures
            match read_error_fields(field_texts(fields@)) {
                Ok((t, m)) => r matches Ok(e) && e.error_type@ == or_empty(t) && e.message@
                    == or_empty(m),
                Err(n) => r matches Err(ProtoJsonError::DuplicateField(d)) && d@ == n,
            },
    {
        let ghost all = field_texts(fields@);
        let mut builder = ErrorResponseBuilder::new();
        let n = fields.len();
        let mut i: usize = 0;
        while i < n
            invariant
                n == fields@.len(),
                all == field_texts(fields@),
                i <= n,
                read_error_fields(all.take(i as int)) == Ok::<
                    (Option<Seq<char>>, Option<Seq<char>>),
                    Seq<char>,
                >((builder.read_error_type(), builder.read_message())),
            decreases n - i,
        {
            let f = fields[i].0;
            let text = fields[i].1.clone();
            proof {
                assert(all.take(i + 1).drop_last() =~= all.take(i as int));
                assert(all.take(i + 1).last() == (f, text@));
            }
            match builder.accept(f, text) {
                Ok(()) => {},
                Err(e) => {
                    proof {
                        lemma_read_error_sticks(all, i + 1);
                        assert(all.take(n as int) =~= all);
                    }
                    return Err(e);
                },
            }
            i = i + 1;
        }
        proof {
            assert(all.take(n as int) =~= all);
        }
        Ok(builder.finish())
    }
}

/// The fields of a refusal paired with their texts.
pub open spec fn field_texts(fs: Seq<(ErrorResponseField, String)>) -> Seq<
    (ErrorResponseField, Seq<char>),
> {
    fs.map_values(|p: (ErrorResponseField, String)| (p.0, p.1@))
}

/// The fields written for a refusal, with their texts: the error type and
/// then the message, each only when not empty.
pub open spec fn written_error_fields(e: ErrorResponse) -> Seq<(ErrorResponseField, Seq<char>)> {
    (if e.error_type@.len() != 0 {
        seq![(ErrorResponseField::ErrorType, e.error_type@)]
    } else {
        Seq::empty()
    }) + (if e.message@.len() != 0 {
        seq![(ErrorResponseField::Message, e.message@)]
    } else {
        Seq::empty()
    })
}

/// What reading the fields `fs` of a refusal in order gives: the error type
/// and the message read, where given, or the JSON name of the first field
/// given a second time.
pub open spec fn read_error_fields(fs: Seq<(ErrorResponseField, Seq<char>)>) -> Result<
    (Option<Seq<char>>, Option<Seq<char>>),
    Seq<char>,
>
    decreases fs.len(),
{
    if fs.len() == 0 {
        Ok((None, None))
    } else {
        match read_error_fields(fs.drop_last()) {
            Err(name) => Err(name),
            Ok((t, m)) => {
                let f = fs.last().0;
                let v = fs.last().1;
                match f {
                    ErrorResponseField::ErrorType => if t is Some {
                        Err(f.spec_json_name())
                    } else {
                        Ok((Some(v), m))
                    },
                    ErrorResponseField::Message => if m is Some {
                        Err(f.spec_json_name())
                    } else {
                        Ok((t, Some(v)))
                    },
                }
            },
        }
    }
}

/// The text read for a field, or empty when it was not given.
pub open spec fn or_empty(o: Option<Seq<char>>) -> Seq<char> {
    match o {
        Some(s) => s,
        None => Seq::empty(),
    }
}

/// Once a field has been given twice, reading further fields does not
/// change the outcome.
proof fn lemma_read_error_sticks(fs: Seq<(ErrorResponseField, Seq<char>)>, k: int)
    requires
        0 <= k <= fs.len(),
        read_error_fields(fs.take(k)) is Err,
    ensures
        read_error_fields(fs) == read_error_fields(fs.take(k)),
    decreases fs.len() - k,
{
    if k < fs.len() {
        assert(fs.take(k + 1).drop_last() =~= fs.take(k));
        lemma_read_error_sticks(fs, k + 1);
    } else {
        assert(fs.take(k) =~= fs);
    }
}

/// The fields of a refusal read so far.
pub struct ErrorResponseBuilder {
    error_type: Option<String>,
    message: Option<String>,
}

impl ErrorResponseBuilder {
    /// The error type read, if any.
    pub closed spec fn read_error_type(self) -> Option<Seq<char>> {
        match self.error_type {
            Some(t) => Some(t@),
            None => None,
        }
    }

    /// The message read, if any.
    pub closed spec fn read_message(self) -> Option<Seq<char>> {
        match self.message {
            Some(m) => Some(m@),
            None => None,
        }
    }

    /// A builder that has read nothing.
    pub fn new() -> (b: Self)
        ensures
            b.read_error_type() is None,
            b.read_message() is None,
    {
        ErrorResponseBuilder { error_type: None, message: None }
    }

    /// Whether the field `f` has been read.
    pub fn contains(&self, f: ErrorResponseField) -> (r: bool)
        ensures
            r == match f {
                ErrorResponseField::ErrorType => self.read_error_type() is Some,
                ErrorResponseField::Message => self.read_message() is Some,
            },
    {
        match f {
            ErrorResponseField::ErrorType => self.error_type.is_some(),
            ErrorResponseField::Message => self.message.is_some(),
        }
    }

    /// Reads the text of the field `f`; a field read before is refused and
    /// the builder left as it was.
    pub fn accept(&mut self, f: ErrorResponseField, text: String) -> (r: Result<(), ProtoJsonError>)
        ensures
            match f {
                ErrorResponseField::ErrorType => if old(self).read_error_type() is Some {
                    r matches Err(ProtoJsonError::DuplicateField(n)) && n@ == f.spec_json_name()
                        && final(self).read_error_type() == old(self).read_error_type()
                } else {
                    r is Ok && final(self).read_error_type() == Some(text@)
                },
                ErrorResponseField::Message => if old(self).read_message() is Some {
                    r matches Err(ProtoJsonError::DuplicateField(n)) && n@ == f.spec_json_name()
                        && final(self).read_message() == old(self).read_message()
                } else {
                    r is Ok && final(self).read_message() == Some(text@)
                },
            },
            f is ErrorType ==> final(self).read_message() == old(self).read_message(),
            f is Message ==> final(self).read_error_type() == old(self).read_error_type(),
    {
        match f {
            ErrorResponseField::ErrorType => {
                if self.error_type.is_some() {
                    return Err(ProtoJsonError::DuplicateField(f.json_name()));
                }
                self.error_type = Some(text);
            },
            ErrorResponseField::Message => {
                if self.message.is_some() {
                    return Err(ProtoJsonError::DuplicateField(f.json_name()));
                }
                self.message = Some(text);
            },
        }
        Ok(())
    }

    /// The refusal read: each field as read, or empty.
    pub fn finish(self) -> (e: ErrorResponse)
        ensures
            e.error_type@ == match self.read_error_type() {
                Some(t) => t,
                None => Seq::empty(),
            },
            e.message@ == match self.read_message() {
                Some(m) => m,
                None => Seq::empty(),
            },
    {
        let error_type = match self.error_type {
            Some(t) => t,
            None => String::new(),
        };
        let message = match self.message {
            Some(m) => m,
            None => String::new(),
        };
        ErrorResponse { error_type, message }
    }
}

/// The fields written for a refusal read back as that refusal: no field is
/// given twice, and each takes the text it had (an empty text is not
/// written and reads back empty).
pub proof fn lemma_error_response_json_round_trip(e: ErrorResponse)
    ensures
        read_error_fields(written_error_fields(e)) matches Ok((t, m)) && or_empty(t)
            == e.error_type@ && or_empty(m) == e.message@,
{
    reveal_with_fuel(read_error_fields, 3);
    let w = written_error_fields(e);
    if e.error_type@.len() != 0 && e.message@.len() != 0 {
        assert(w.drop_last() =~= seq![(ErrorResponseField::ErrorType, e.error_type@)]);
        assert(w.drop_last().drop_last() =~= Seq::<(ErrorResponseField, Seq<char>)>::empty());
    } else if e.error_type@.len() != 0 {
        assert(w.drop_last() =~= Seq::<(ErrorResponseField, Seq<char>)>::empty());
    } else if e.message@.len() != 0 {
        assert(w.drop_last() =~= Seq::<(ErrorResponseField, Seq<char>)>::empty());
    } else {
        assert(w =~= Seq::<(ErrorResponseField, Seq<char>)>::empty());
        assert(e.error_type@ =~= Seq::<char>::empty());
        assert(e.message@ =~= Seq::<char>::empty());
    }
}

/// The name of a field of the consensus state in the protocol's message
/// definition.
pub open spec fn consensus_state_proto_name(f: ConsensusStateField) -> Seq<char> {
    match f {
            ConsensusStateField::Epoch => "epoch"@,
            ConsensusStateField::LastVotedRound => "last_voted_round"@,
            ConsensusStateField::PreferredRound => "preferred_round"@,
            ConsensusStateField::Waypoint => "waypoint"@,
            ConsensusStateField::InValidatorSet => "in_validator_set"@,
    }
}

/// The name of a field of a refusal in the protocol's message definition.
pub open spec fn error_response_proto_name(f: ErrorResponseField) -> Seq<char> {
    match f {
            ErrorResponseField::ErrorType => "error_type"@,
            ErrorResponseField::Message => "message"@,
    }
}

/// The lowerCamelCase form of `epoch` is `epoch`.
proof fn lemma_lower_camel_epoch()
    ensures
        lower_camel_case("epoch"@) == "epoch"@,
{
    reveal_strlit("epoch");
    reveal_with_fuel(camel_from, 6);
    assert(lower_camel_case("epoch"@) =~= "epoch"@);
}

/// The lowerCamelCase form of `last_voted_round` is `lastVotedRound`.
proof fn lemma_lower_camel_last_voted_round()
    ensures
        lower_camel_case("last_voted_round"@) == "lastVotedRound"@,
{
    reveal_strlit("last_voted_round");
    reveal_strlit("lastVotedRound");
    reveal_with_fuel(camel_from, 17);
    assert(lower_camel_case("last_voted_round"@) =~= "lastVotedRound"@);
}

/// The lowerCamelCase form of `preferred_round` is `preferredRound`.
proof fn lemma_lower_camel_preferred_round()
    ensures
        lower_camel_case("preferred_round"@) == "preferredRound"@,
{
    reveal_strlit("preferred_round");
    reveal_strlit("preferredRound");
    reveal_with_fuel(camel_from, 16);
    assert(lower_camel_case("preferred_round"@) =~= "preferredRound"@);
}

/// The lowerCamelCase form of `waypoint` is `waypoint`.
proof fn lemma_lower_camel_waypoint()
    ensures
        lower_camel_case("waypoint"@) == "waypoint"@,
{
    reveal_strlit("waypoint");
    reveal_with_fuel(camel_from, 9);
    assert(lower_camel_case("waypoint"@) =~= "waypoint"@);
}

/// The lowerCamelCase form of `in_validator_set` is `inValidatorSet`.
proof fn lemma_lower_camel_in_validator_set()
    ensures
        lower_camel_case("in_validator_set"@) == "inValidatorSet"@,
{
    reveal_strlit("in_validator_set");
    reveal_strlit("inValidatorSet");
    reveal_with_fuel(camel_from, 17);
    assert(lower_camel_case("in_validator_set"@) =~= "inValidatorSet"@);
}

/// The lowerCamelCase form of `error_type` is `errorType`.
proof fn lemma_lower_camel_error_type()
    ensures
        lower_camel_case("error_type"@) == "errorType"@,
{
    reveal_strlit("error_type");
    reveal_strlit("errorType");
    reveal_with_fuel(camel_from, 11);
    assert(lower_camel_case("error_type"@) =~= "errorType"@);
}

/// The lowerCamelCase form of `message` is `message`.
proof fn lemma_lower_camel_message()
    ensures
        lower_camel_case("message"@) == "message"@,
{
    reveal_strlit("message");
    reveal_with_fuel(camel_from, 8);
    assert(lower_camel_case("message"@) =~= "message"@);
}

/// Each field of the consensus state is written under the lowerCamelCase
/// form of its protobuf name, and read back under that name or the protobuf
/// name itself as that field and no other: what is written is read back.
pub proof fn lemma_consensus_state_names_read_back(f: ConsensusStateField, g: ConsensusStateField)
    ensures
        f.spec_json_name() == lower_camel_case(consensus_state_proto_name(f)),
        f.accepts(f.spec_json_name()),
        f.accepts(consensus_state_proto_name(f)),
        g.accepts(f.spec_json_name()) ==> g == f,
        g.accepts(consensus_state_proto_name(f)) ==> g == f,
{
    reveal_strlit("epoch");
    reveal_strlit("lastVotedRound");
    reveal_strlit("last_voted_round");
    reveal_strlit("preferredRound");
    reveal_strlit("preferred_round");
    reveal_strlit("waypoint");
    reveal_strlit("inValidatorSet");
    reveal_strlit("in_validator_set");
    let n = f.spec_json_name();
    let p = consensus_state_proto_name(f);
    assert(n.len() > 0 && p.len() > 0 && n[0] == n[0] && p[0] == p[0]);
    assert("epoch"@[0] == 'e' && "lastVotedRound"@[0] == 'l' && "last_voted_round"@[0] == 'l'
        && "preferredRound"@[0] == 'p' && "preferred_round"@[0] == 'p' && "waypoint"@[0] == 'w'
        && "inValidatorSet"@[0] == 'i' && "in_validator_set"@[0] == 'i');
    match f {
        ConsensusStateField::Epoch => lemma_lower_camel_epoch(),
        ConsensusStateField::LastVotedRound => lemma_lower_camel_last_voted_round(),
        ConsensusStateField::PreferredRound => lemma_lower_camel_preferred_round(),
        ConsensusStateField::Waypoint => lemma_lower_camel_waypoint(),
        ConsensusStateField::InValidatorSet => lemma_lower_camel_in_validator_set(),
    }
}

/// Each field of a refusal is written under the lowerCamelCase form of its
/// protobuf name, and read back under that name or the protobuf name itself
/// as that field and no other: what is written is read back.
pub proof fn lemma_error_response_names_read_back(f: ErrorResponseField, g: ErrorResponseField)
    ensures
        f.spec_json_name() == lower_camel_case(error_response_proto_name(f)),
        f.accepts(f.spec_json_name()),
        f.accepts(error_response_proto_name(f)),
        g.accepts(f.spec_json_name()) ==> g == f,
        g.accepts(error_response_proto_name(f)) ==> g == f,
{
    reveal_strlit("errorType");
    reveal_strlit("error_type");
    reveal_strlit("message");
    let n = f.spec_json_name();
    let p = error_response_proto_name(f);
    assert(n.len() > 0 && p.len() > 0 && n[0] == n[0] && p[0] == p[0]);
    match f {
        ErrorResponseField::ErrorType => lemma_lower_camel_error_type(),
        ErrorResponseField::Message => lemma_lower_camel_message(),
    }
}

} // verus!
