//! Value descriptors: the key that names one parameter of one device, and
//! what the driver's replies about such a parameter mean.

use std::cmp::Ordering;
use vstd::prelude::*;
use vstd::std_specs::cmp::PartialEqSpec;
use vstd::std_specs::cmp::PartialOrdSpec;
use vstd::string::*;
use crate::text::decimal;
use crate::text::push_decimal;

verus! {

/// The audience a value is meant for.
#[derive(Clone, Copy, Debug, PartialEq, Eq, Structural)]
pub enum ValueGenre {
    /// The level as basic commands control it.
    Basic,
    /// Values an ordinary user is interested in.
    User,
    /// Device-specific configuration parameters.
    Config,
    /// Values that matter only to those who know the protocol.
    System,
}

impl ValueGenre {
    /// The number by which the driver knows the genre; genres are ordered
    /// by it.
    pub open spec fn rank(self) -> int {
        match self {
            ValueGenre::Basic => 0,
            ValueGenre::User => 1,
            ValueGenre::Config => 2,
            ValueGenre::System => 3,
        }
    }

    /// The genre's name as text.
    pub open spec fn name(self) -> Seq<char> {
        match self {
            ValueGenre::Basic => "Basic"@,
            ValueGenre::User => "User"@,
            ValueGenre::Config => "Config"@,
            ValueGenre::System => "System"@,
        }
    }

    /// The number by which the driver knows the genre.
    pub fn raw(&self) -> (r: u32)
        ensures
            r == self.rank(),
    {
        match self {
            ValueGenre::Basic => 0,
            ValueGenre::User => 1,
            ValueGenre::Config => 2,
            ValueGenre::System => 3,
        }
    }

    /// The genre that the driver knows by the number `raw`, if there
    /// is one.
    pub open spec fn of_rank(raw: int) -> Option<ValueGenre> {
        if raw == 0 {
            Some(ValueGenre::Basic)
        } else if raw == 1 {
            Some(ValueGenre::User)
        } else if raw == 2 {
            Some(ValueGenre::Config)
        } else if raw == 3 {
            Some(ValueGenre::System)
        } else {
            None
        }
    }

    /// Each genre is the one that its own number stands for, and
    /// a number stands for no other.
    pub proof fn lemma_rank_names_one(self, raw: int)
        ensures
            ValueGenre::of_rank(self.rank()) == Some(self),
            ValueGenre::of_rank(raw) == Some(self) <==> raw == self.rank(),
    {
    }

    /// The genre that the driver knows by `raw`, if there is one.
    pub fn from_raw(raw: u32) -> (r: Option<ValueGenre>)
        ensures
            r == ValueGenre::of_rank(raw as int),
    {
        if raw == 0 {
            Some(ValueGenre::Basic)
        } else if raw == 1 {
            Some(ValueGenre::User)
        } else if raw == 2 {
            Some(ValueGenre::Config)
        } else if raw == 3 {
            Some(ValueGenre::System)
        } else {
            None
        }
    }

    /// The genre's name as text.
    pub fn as_str(&self) -> (r: &'static str)
        ensures
            r@ == self.name(),
    {
        match self {
            ValueGenre::Basic => "Basic",
            ValueGenre::User => "User",
            ValueGenre::Config => "Config",
            ValueGenre::System => "System",
        }
    }
}

/// The type of data that a value holds.
#[derive(Clone, Copy, Debug, PartialEq, Eq, Structural)]
pub enum ValueType {
    /// True or false.
    Bool,
    /// An 8-bit unsigned number.
    Byte,
    /// A number that is not whole, kept as text so that no precision is lost.
    Decimal,
    /// A 32-bit signed number.
    Int,
    /// A list from which one item can be selected.
    List,
    /// A climate-control schedule.
    Schedule,
    /// A 16-bit signed number.
    Short,
    /// A text.
    String,
    /// A write-only value that stands for pressing a button.
    Button,
    /// A collection of bytes.
    Raw,
}

impl ValueType {
    /// The number by which the driver knows the type.
    pub open spec fn rank(self) -> int {
        match self {
            ValueType::Bool => 0,
            ValueType::Byte => 1,
            ValueType::Decimal => 2,
            ValueType::Int => 3,
            ValueType::List => 4,
            ValueType::Schedule => 5,
            ValueType::Short => 6,
            ValueType::String => 7,
            ValueType::Button => 8,
            ValueType::Raw => 9,
        }
    }

    /// The type's name as text.
    pub open spec fn name(self) -> Seq<char> {
        match self {
            ValueType::Bool => "Bool"@,
            ValueType::Byte => "Byte"@,
            ValueType::Decimal => "Decimal"@,
            ValueType::Int => "Int"@,
            ValueType::List => "List"@,
            ValueType::Schedule => "Schedule"@,
            ValueType::Short => "Short"@,
            ValueType::String => "String"@,
            ValueType::Button => "Button"@,
            ValueType::Raw => "Raw"@,
        }
    }

    /// The number by which the driver knows the type.
    pub fn raw(&self) -> (r: u32)
        ensures
            r == self.rank(),
    {
        match self {
            ValueType::Bool => 0,
            ValueType::Byte => 1,
            ValueType::Decimal => 2,
            ValueType::Int => 3,
            ValueType::List => 4,
            ValueType::Schedule => 5,
            ValueType::Short => 6,
            ValueType::String => 7,
            ValueType::Button => 8,
            ValueType::Raw => 9,
        }
    }

    /// The type that the driver knows by the number `raw`, if there
    /// is one.
    pub open spec fn of_rank(raw: int) -> Option<ValueType> {
        if raw == 0 {
            Some(ValueType::Bool)
        } else if raw == 1 {
            Some(ValueType::Byte)
        } else if raw == 2 {
            Some(ValueType::Decimal)
        } else if raw == 3 {
            Some(ValueType::Int)
        } else if raw == 4 {
            Some(ValueType::List)
        } else if raw == 5 {
            Some(ValueType::Schedule)
        } else if raw == 6 {
            Some(ValueType::Short)
        } else if raw == 7 {
            Some(ValueType::String)
        } else if raw == 8 {
            Some(ValueType::Button)
        } else if raw == 9 {
            Some(ValueType::Raw)
        } else {
            None
        }
    }

    /// Each type is the one that its own number stands for, and
    /// a number stands for no other.
    pub proof fn lemma_rank_names_one(self, raw: int)
        ensures
            ValueType::of_rank(self.rank()) == Some(self),
            ValueType::of_rank(raw) == Some(self) <==> raw == self.rank(),
    {
    }

    /// The type that the driver knows by `raw`, if there is one.
    pub fn from_raw(raw: u32) -> (r: Option<ValueType>)
        ensures
            r == ValueType::of_rank(raw as int),
    {
        if raw == 0 {
            Some(ValueType::Bool)
        } else if raw == 1 {
            Some(ValueType::Byte)
        } else if raw == 2 {
            Some(ValueType::Decimal)
        } else if raw == 3 {
            Some(ValueType::Int)
        } else if raw == 4 {
            Some(ValueType::List)
        } else if raw == 5 {
            Some(ValueType::Schedule)
        } else if raw == 6 {
            Some(ValueType::Short)
        } else if raw == 7 {
            Some(ValueType::String)
        } else if raw == 8 {
            Some(ValueType::Button)
        } else if raw == 9 {
            Some(ValueType::Raw)
        } else {
            None
        }
    }

    /// The type's name as text.
    pub fn as_str(&self) -> (r: &'static str)
        ensures
            r@ == self.name(),
    {
        match self {
            ValueType::Bool => "Bool",
            ValueType::Byte => "Byte",
            ValueType::Decimal => "Decimal",
            ValueType::Int => "Int",
            ValueType::List => "List",
            ValueType::Schedule => "Schedule",
            ValueType::Short => "Short",
            ValueType::String => "String",
            ValueType::Button => "Button",
            ValueType::Raw => "Raw",
        }
    }
}

/// The key of one controllable parameter on one device.
///
/// The first six fields identify the parameter. `value_type` is an attribute
/// of the parameter and takes no part in comparisons.
#[derive(Clone, Copy, Debug)]
pub struct ValueID {
    /// The network that the device belongs to.
    pub home_id: u32,
    /// The device within the network.
    pub node_id: u8,
    /// The audience the value is meant for.
    pub genre: ValueGenre,
    /// The family of parameters the value belongs to.
    pub command_class_id: u8,
    /// Which of several identical parameters of the device this is.
    pub instance: u8,
    /// The parameter's index within its command class.
    pub value_index: u8,
    /// The type of data the value holds.
    pub value_type: ValueType,
}

/// The text that stands for the label of a value that the driver has no
/// label for.
pub open spec fn placeholder_label() -> Seq<char> {
    "unnamed"@
}

impl ValueID {
    /// The fields that identify the parameter.
    pub open spec fn key(&self) -> (u32, u8, ValueGenre, u8, u8, u8) {
        (
            self.home_id,
            self.node_id,
            self.genre,
            self.command_class_id,
            self.instance,
            self.value_index,
        )
    }

    /// Whether this descriptor comes strictly before `other`: the keys are
    /// compared field by field, the first difference decides, and genres
    /// go by their rank.
    pub open spec fn precedes(&self, other: &ValueID) -> bool {
        if self.home_id != other.home_id {
            self.home_id < other.home_id
        } else if self.node_id != other.node_id {
            self.node_id < other.node_id
        } else if self.genre != other.genre {
            self.genre.rank() < other.genre.rank()
        } else if self.command_class_id != other.command_class_id {
            self.command_class_id < other.command_class_id
        } else if self.instance != other.instance {
            self.instance < other.instance
        } else {
            self.value_index < other.value_index
        }
    }

    /// The line of text that describes the descriptor, given its label.
    pub open spec fn description(&self, label: Seq<char>) -> Seq<char> {
        "ValueID(node_id: "@ + decimal(self.node_id as nat) + ", genre: "@ + self.genre.name()
            + ", cmd_class_id: "@ + decimal(self.command_class_id as nat) + ", instance: "@
            + decimal(self.instance as nat) + ", type: "@ + self.value_type.name() + ", index: "@
            + decimal(self.value_index as nat) + ", label: '"@ + label + "')"@
    }

    /// The descriptor with every number zero, of genre `Basic` and type
    /// `Bool`.
    pub fn new() -> (v: ValueID)
        ensures
            v == (ValueID {
                home_id: 0,
                node_id: 0,
                genre: ValueGenre::Basic,
                command_class_id: 0,
                instance: 0,
                value_index: 0,
                value_type: ValueType::Bool,
            }),
    {
        ValueID {
            home_id: 0,
            node_id: 0,
            genre: ValueGenre::Basic,
            command_class_id: 0,
            instance: 0,
            value_index: 0,
            value_type: ValueType::Bool,
        }
    }

    /// The value's label, given what the driver replied when asked for it:
    /// the reply itself, or the placeholder where the driver had none.
    pub fn label(&self, reply: Option<String>) -> (label: String)
        ensures
            label@ == (match reply {
                Some(text) => text@,
                None => placeholder_label(),
            }),
    {
        match reply {
            Some(text) => text,
            None => String::from_str("unnamed"),
        }
    }

    /// The value's current state as text, given what the driver replied
    /// when asked for it. The driver must have replied.
    pub fn get_string(&self, reply: Option<String>) -> (text: String)
        requires
            reply is Some,
        ensures
            Some(text) == reply,
    {
        match reply {
            Some(text) => text,
            None => String::new(),
        }
    }

    /// A line of text that describes the descriptor, for diagnostics.
    pub fn describe(&self, label: &str) -> (line: String)
        ensures
            line@ == self.description(label@),
    {
        let mut line = String::from_str("ValueID(node_id: ");
        push_decimal(&mut line, self.node_id);
        line.append(", genre: ");
        line.append(self.genre.as_str());
        line.append(", cmd_class_id: ");
        push_decimal(&mut line, self.command_class_id);
        line.append(", instance: ");
        push_decimal(&mut line, self.instance);
        line.append(", type: ");
        line.append(self.value_type.as_str());
        line.append(", index: ");
        push_decimal(&mut line, self.value_index);
        line.append(", label: '");
        line.append(label);
        line.append("')");
        line
    }
}

impl PartialEq for ValueID {
    fn eq(&self, other: &ValueID) -> (r: bool) {
        self.home_id == other.home_id && self.node_id == other.node_id && self.genre
            == other.genre && self.command_class_id == other.command_class_id && self.instance
            == other.instance && self.value_index == other.value_index
    }
}

impl vstd::std_specs::cmp::PartialEqSpecImpl for ValueID {
    open spec fn obeys_eq_spec() -> bool {
        true
    }

    open spec fn eq_spec(&self, other: &ValueID) -> bool {
        self.home_id == other.home_id && self.node_id == other.node_id && self.genre
            == other.genre && self.command_class_id == other.command_class_id && self.instance
            == other.instance && self.value_index == other.value_index
    }
}

impl PartialOrd for ValueID {
    fn partial_cmp(&self, other: &ValueID) -> (r: Option<Ordering>) {
        if self.home_id != other.home_id {
            Some(decide(self.home_id < other.home_id))
        } else if self.node_id != other.node_id {
            Some(decide(self.node_id < other.node_id))
        } else if self.genre != other.genre {
            Some(decide(self.genre.raw() < other.genre.raw()))
        } else if self.command_class_id != other.command_class_id {
            Some(decide(self.command_class_id < other.command_class_id))
        } else if self.instance != other.instance {
            Some(decide(self.instance < other.instance))
        } else if self.value_index != other.value_index {
            Some(decide(self.value_index < other.value_index))
        } else {
            Some(Ordering::Equal)
        }
    }
}

impl vstd::std_specs::cmp::PartialOrdSpecImpl for ValueID {
    open spec fn obeys_partial_cmp_spec() -> bool {
        true
    }

    open spec fn partial_cmp_spec(&self, other: &ValueID) -> Option<Ordering> {
        if self.key() == other.key() {
            Some(Ordering::Equal)
        } else if self.precedes(other) {
            Some(Ordering::Less)
        } else {
            Some(Ordering::Greater)
        }
    }
}

/// The order of two unequal things, of which the first is the smaller
/// exactly if `smaller` holds.
fn decide(smaller: bool) -> (r: Ordering)
    ensures
        r == (if smaller {
            Ordering::Less
        } else {
            Ordering::Greater
        }),
{
    if smaller {
        Ordering::Less
    } else {
        Ordering::Greater
    }
}

/// Comparisons look at the identifying fields alone: where `a` has the key
/// of `c` and `b` has the key of `d`, `a` and `b` compare as `c` and `d` do,
/// whatever the value types of the four.
pub proof fn lemma_comparisons_go_by_key(a: ValueID, b: ValueID, c: ValueID, d: ValueID)
    requires
        a.key() == c.key(),
        b.key() == d.key(),
    ensures
        a.eq_spec(&b) == c.eq_spec(&d),
        a.partial_cmp_spec(&b) == c.partial_cmp_spec(&d),
{
}

/// Two descriptors are equal exactly if their keys are, and then neither
/// comes before the other.
pub proof fn lemma_equal_iff_same_key(a: ValueID, b: ValueID)
    ensures
        a.eq_spec(&b) <==> a.key() == b.key(),
        a.eq_spec(&b) <==> a.partial_cmp_spec(&b) == Some(Ordering::Equal),
        a.key() == b.key() ==> !a.precedes(&b) && !b.precedes(&a),
{
}

/// The order on descriptors is a strict total order on their keys: of two
/// descriptors with different keys exactly one comes first, and the order
/// is transitive.
pub proof fn lemma_order_is_total(a: ValueID, b: ValueID, c: ValueID)
    ensures
        a.key() != b.key() ==> (a.precedes(&b) <==> !b.precedes(&a)),
        a.precedes(&b) && b.precedes(&c) ==> a.precedes(&c),
{
}

} // verus!
