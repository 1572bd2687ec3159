//! The data formats mpv reads and writes property values in.
use vstd::prelude::*;
use crate::text::same_text;

verus! {

/// A value format of the mpv client API (`mpv_format`).
#[derive(Clone, Copy, Debug, PartialEq, Eq, Structural)]
pub enum MpvFormat {
    NoFormat,
    String,
    OsdString,
    Flag,
    Int64,
    Double,
    Node,
    NodeArray,
    NodeMap,
    ByteArray,
}

/// The name a format is written with in requests.
pub open spec fn format_name(f: MpvFormat) -> Seq<char> {
    match f {
        MpvFormat::NoFormat => "none"@,
        MpvFormat::String => "string"@,
        MpvFormat::OsdString => "osd-string"@,
        MpvFormat::Flag => "flag"@,
        MpvFormat::Int64 => "int64"@,
        MpvFormat::Double => "double"@,
        MpvFormat::Node => "node"@,
        MpvFormat::NodeArray => "node-array"@,
        MpvFormat::NodeMap => "node-map"@,
        MpvFormat::ByteArray => "byte-array"@,
    }
}

/// The number the mpv client API gives a format.
pub open spec fn format_code(f: MpvFormat) -> u32 {
    match f {
        MpvFormat::NoFormat => 0,
        MpvFormat::String => 1,
        MpvFormat::OsdString => 2,
        MpvFormat::Flag => 3,
        MpvFormat::Int64 => 4,
        MpvFormat::Double => 5,
        MpvFormat::Node => 6,
        MpvFormat::NodeArray => 7,
        MpvFormat::NodeMap => 8,
        MpvFormat::ByteArray => 9,
    }
}

impl MpvFormat {
    /// The name this format is written with in requests.
    pub fn name(&self) -> (r: &'static str)
        ensures
            r@ == format_name(*self),
    {
        match self {
            MpvFormat::NoFormat => "none",
            MpvFormat::String => "string",
            MpvFormat::OsdString => "osd-string",
            MpvFormat::Flag => "flag",
            MpvFormat::Int64 => "int64",
            MpvFormat::Double => "double",
            MpvFormat::Node => "node",
            MpvFormat::NodeArray => "node-array",
            MpvFormat::NodeMap => "node-map",
            MpvFormat::ByteArray => "byte-array",
        }
    }

    /// The `mpv_format` number of this format.
    pub fn code(&self) -> (r: u32)
        ensures
            r == format_code(*self),
    {
        match self {
            MpvFormat::NoFormat => 0,
            MpvFormat::String => 1,
            MpvFormat::OsdString => 2,
            MpvFormat::Flag => 3,
            MpvFormat::Int64 => 4,
            MpvFormat::Double => 5,
            MpvFormat::Node => 6,
            MpvFormat::NodeArray => 7,
            MpvFormat::NodeMap => 8,
            MpvFormat::ByteArray => 9,
        }
    }

    /// The format a property is read in when this one is asked for: flags,
    /// integers, doubles and strings as they are, anything else as a node.
    pub fn read_as(&self) -> (r: MpvFormat)
        ensures
            r == match *self {
                MpvFormat::Flag => MpvFormat::Flag,
                MpvFormat::Int64 => MpvFormat::Int64,
                MpvFormat::Double => MpvFormat::Double,
                MpvFormat::String => MpvFormat::String,
                MpvFormat::OsdString => MpvFormat::OsdString,
                _ => MpvFormat::Node,
            },
    {
        match self {
            MpvFormat::Flag | MpvFormat::Int64 | MpvFormat::Double | MpvFormat::String
            | MpvFormat::OsdString => *self,
            _ => MpvFormat::Node,
        }
    }

    /// The format with the given name, if there is one.
    pub fn from_name(s: &str) -> (r: Option<MpvFormat>)
        ensures
            r matches Some(f) ==> format_name(f) == s@,
            r is None ==> forall|f: MpvFormat| format_name(f) != s@,
    {
        let all = [
            MpvFormat::NoFormat,
            MpvFormat::String,
            MpvFormat::OsdString,
            MpvFormat::Flag,
            MpvFormat::Int64,
            MpvFormat::Double,
            MpvFormat::Node,
            MpvFormat::NodeArray,
            MpvFormat::NodeMap,
            MpvFormat::ByteArray,
        ];
        let mut i: usize = 0;
        while i < 10
            invariant
                i <= 10,
                all@ == seq![
                    MpvFormat::NoFormat,
                    MpvFormat::String,
                    MpvFormat::OsdString,
                    MpvFormat::Flag,
                    MpvFormat::Int64,
                    MpvFormat::Double,
                    MpvFormat::Node,
                    MpvFormat::NodeArray,
                    MpvFormat::NodeMap,
                    MpvFormat::ByteArray,
                ],
                forall|j: int| 0 <= j < i ==> format_name(all@[j]) != s@,
            decreases 10 - i,
        {
            let f = all[i];
            if same_text(f.name(), s) {
                return Some(f);
            }
            i += 1;
        }
        proof {
            assert forall|f: MpvFormat| format_name(f) != s@ by {
                match f {
                    MpvFormat::NoFormat => assert(all@[0] == f),
                    MpvFormat::String => assert(all@[1] == f),
                    MpvFormat::OsdString => assert(all@[2] == f),
                    MpvFormat::Flag => assert(all@[3] == f),
                    MpvFormat::Int64 => assert(all@[4] == f),
                    MpvFormat::Double => assert(all@[5] == f),
                    MpvFormat::Node => assert(all@[6] == f),
                    MpvFormat::NodeArray => assert(all@[7] == f),
                    MpvFormat::NodeMap => assert(all@[8] == f),
                    MpvFormat::ByteArray => assert(all@[9] == f),
                }
            }
        }
        None
    }

    /// The format a request names, or `Node` where it names none.
    pub fn from_name_or_node(s: &str) -> (r: MpvFormat)
        ensures
            r == match MpvFormat::from_name_spec(s@) {
                Some(f) => f,
                None => MpvFormat::Node,
            },
    {
        match MpvFormat::from_name(s) {
            Some(f) => {
                proof { lemma_format_names_distinct(); }
                f
            },
            None => MpvFormat::Node,
        }
    }

    /// The format with the given name, if there is one.
    pub open spec fn from_name_spec(s: Seq<char>) -> Option<MpvFormat> {
        if exists|f: MpvFormat| format_name(f) == s {
            Some(choose|f: MpvFormat| format_name(f) == s)
        } else {
            None
        }
    }
}

/// No two formats share a name.
pub proof fn lemma_format_names_distinct()
    ensures
        forall|f: MpvFormat, g: MpvFormat| format_name(f) == format_name(g) ==> f == g,
{
    reveal_strlit("none");
    reveal_strlit("string");
    reveal_strlit("osd-string");
    reveal_strlit("flag");
    reveal_strlit("int64");
    reveal_strlit("double");
    reveal_strlit("node");
    reveal_strlit("node-array");
    reveal_strlit("node-map");
    reveal_strlit("byte-array");
    assert forall|f: MpvFormat, g: MpvFormat| format_name(f) == format_name(g) implies f == g by {
        if f != g {
            let a = format_name(f);
            let b = format_name(g);
            assert(a.len() != b.len() || a[0] != b[0] || a[1] != b[1] || a[2] != b[2]);
        }
    }
}

/// Reading a format back from its name gives the same format.
pub proof fn law_format_name_round_trip(f: MpvFormat)
    ensures
        MpvFormat::from_name_spec(format_name(f)) == Some(f),
{
    lemma_format_names_distinct();
}

} // verus!
