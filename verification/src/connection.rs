//! Connections: the source and target ends of a directed edge, and the
//! deterministic connector id computed from a (source, target) pair. The
//! connector id is the only way a connection is addressed: it is recomputed
//! from the pair, never stored on the connection itself.

use vstd::prelude::*;

verus! {

/// The source end of a connection: where the value flows from.
#[derive(Clone, PartialEq, Eq, Debug)]
pub enum Connection {
    /// An input property of the shader.
    InputProperty { id: String },
    /// A node with exactly one output field.
    SingleOutputNode { id: String },
    /// A named output field of a node with several output fields.
    ComplexOutputNode { id: String, field_name: String },
    /// A constant.
    Constant { id: String },
}

/// The target end of a connection: where the value flows to. A target
/// accepts at most one incoming connection at a time.
#[derive(Clone, PartialEq, Eq, Debug)]
pub enum ConnectionTo {
    /// A named input field of a node.
    Node { id: String, field_name: String },
    /// An output property of the shader.
    OutputProperty { id: String },
}

/// A proposed connection, handed to the graph model for validation.
#[derive(Clone, PartialEq, Eq, Debug)]
pub struct ConnectionAttempt {
    pub connection_from: Connection,
    pub connection_to: ConnectionTo,
}

/// The key of a source: its id, or `id::field_name` for a complex source.
pub open spec fn source_key_seq(from: Connection) -> Seq<char> {
    match from {
        Connection::InputProperty { id } => id@,
        Connection::SingleOutputNode { id } => id@,
        Connection::Constant { id } => id@,
        Connection::ComplexOutputNode { id, field_name } => id@ + "::"@ + field_name@,
    }
}

/// The key of a target: `id::field_name` for a node input field, or the
/// property id for an output property.
pub open spec fn target_key_seq(to: ConnectionTo) -> Seq<char> {
    match to {
        ConnectionTo::Node { id, field_name } => id@ + "::"@ + field_name@,
        ConnectionTo::OutputProperty { id } => id@,
    }
}

/// The connector id of a (source, target) pair: `{source_key}_{target_key}`.
pub open spec fn connector_id_seq(to: ConnectionTo, from: Connection) -> Seq<char> {
    source_key_seq(from) + "_"@ + target_key_seq(to)
}

/// `s` never holds the character `c`.
pub open spec fn no_char(s: Seq<char>, c: char) -> bool {
    forall|i: int| 0 <= i < s.len() ==> s[i] != c
}

/// An id string that takes part in key building is separator-free: it holds
/// neither `_` (the key joiner) nor `:` (the field joiner). Ids with those
/// characters are the construction's known ambiguity.
pub open spec fn separator_free(s: Seq<char>) -> bool {
    no_char(s, '_') && no_char(s, ':')
}

/// Every id and field name of the source is separator-free.
pub open spec fn source_separator_free(from: Connection) -> bool {
    match from {
        Connection::InputProperty { id } => separator_free(id@),
        Connection::SingleOutputNode { id } => separator_free(id@),
        Connection::Constant { id } => separator_free(id@),
        Connection::ComplexOutputNode { id, field_name } => separator_free(id@)
            && separator_free(field_name@),
    }
}

/// Every id and field name of the target is separator-free.
pub open spec fn target_separator_free(to: ConnectionTo) -> bool {
    match to {
        ConnectionTo::Node { id, field_name } => separator_free(id@) && separator_free(
            field_name@,
        ),
        ConnectionTo::OutputProperty { id } => separator_free(id@),
    }
}

/// The connector id is a pure function of the pair: equal sources and equal
/// targets always yield the same key, however often it is recomputed.
pub proof fn lemma_connector_id_deterministic(
    to1: ConnectionTo,
    from1: Connection,
    to2: ConnectionTo,
    from2: Connection,
)
    requires
        to1 == to2,
        from1 == from2,
    ensures
        connector_id_seq(to1, from1) == connector_id_seq(to2, from2),
{
}

/// Two joins around a separator-free left part agree exactly when the parts
/// agree: `a + mid + b == c + mid + d` forces `a == c` and `b == d`, as long
/// as `mid` starts with a character that `a` and `c` never hold.
proof fn lemma_sep_join_injective(
    a: Seq<char>,
    b: Seq<char>,
    c: Seq<char>,
    d: Seq<char>,
    mid: Seq<char>,
    sep: char,
)
    requires
        mid.len() >= 1,
        mid[0] == sep,
        no_char(a, sep),
        no_char(c, sep),
        a + mid + b == c + mid + d,
    ensures
        a == c,
        b == d,
{
    let s = a + mid + b;
    if a.len() < c.len() {
        assert(s[a.len() as int] == mid[0]);
        assert((c + mid + d)[a.len() as int] == c[a.len() as int]);
        assert(false);
    }
    if c.len() < a.len() {
        assert(s[c.len() as int] == c[c.len() as int]) by {
            assert((c + mid + d)[c.len() as int] == mid[0]);
        }
        assert(false);
    }
    assert(a =~= c) by {
        assert forall|i: int| 0 <= i < a.len() implies a[i] == c[i] by {
            assert(s[i] == a[i]);
            assert((c + mid + d)[i] == c[i]);
        }
    }
    assert(b =~= d) by {
        assert(s.len() == a.len() + mid.len() + b.len());
        assert((c + mid + d).len() == c.len() + mid.len() + d.len());
        assert(b.len() == d.len());
        assert forall|i: int| 0 <= i < b.len() implies b[i] == d[i] by {
            assert(s[a.len() + mid.len() + i] == b[i]) by {
                assert((a + mid).len() == a.len() + mid.len());
            }
            assert((c + mid + d)[a.len() + mid.len() + i] == d[i]) by {
                assert((c + mid).len() == c.len() + mid.len());
                assert(a.len() + mid.len() + i - (c.len() + mid.len()) == i);
            }
        }
    }
}

/// A separator-free source key holds no `_`.
proof fn lemma_source_key_no_join(from: Connection)
    requires
        source_separator_free(from),
    ensures
        no_char(source_key_seq(from), '_'),
{
    reveal_strlit("::");
    match from {
        Connection::ComplexOutputNode { id, field_name } => {
            assert forall|i: int|
                0 <= i < source_key_seq(from).len() implies source_key_seq(from)[i] != '_' by {
                let k = id@ + "::"@ + field_name@;
                if i < id@.len() {
                    assert(k[i] == id@[i]);
                } else if i < id@.len() + 2 {
                    assert(k[i] == "::"@[i - id@.len()]);
                } else {
                    assert(k[i] == field_name@[i - id@.len() - 2]);
                }
            }
        },
        _ => {},
    }
}

/// Equal connector ids force equal source keys and equal target keys, as
/// long as every id is separator-free; ids holding `_` or `:` are the
/// construction's accepted ambiguity and are left out here.
pub proof fn lemma_connector_id_separates(
    to1: ConnectionTo,
    from1: Connection,
    to2: ConnectionTo,
    from2: Connection,
)
    requires
        source_separator_free(from1),
        source_separator_free(from2),
        connector_id_seq(to1, from1) == connector_id_seq(to2, from2),
    ensures
        source_key_seq(from1) == source_key_seq(from2),
        target_key_seq(to1) == target_key_seq(to2),
{
    reveal_strlit("_");
    lemma_source_key_no_join(from1);
    lemma_source_key_no_join(from2);
    lemma_sep_join_injective(
        source_key_seq(from1),
        target_key_seq(to1),
        source_key_seq(from2),
        target_key_seq(to2),
        "_"@,
        '_',
    );
}

/// Two sources agree as far as the key construction can tell them apart:
/// complex sources agree on id and field name, plain sources agree on id.
/// The three plain source kinds share one key shape by construction, so the
/// key never separates, say, a constant from an input property of the same
/// id.
pub open spec fn same_source_key(from1: Connection, from2: Connection) -> bool {
    match (from1, from2) {
        (
            Connection::ComplexOutputNode { id: i1, field_name: f1 },
            Connection::ComplexOutputNode { id: i2, field_name: f2 },
        ) => i1@ == i2@ && f1@ == f2@,
        (Connection::ComplexOutputNode { .. }, _) => false,
        (_, Connection::ComplexOutputNode { .. }) => false,
        _ => plain_source_id(from1) == plain_source_id(from2),
    }
}

/// The id of a plain (non-complex) source.
pub open spec fn plain_source_id(from: Connection) -> Seq<char> {
    match from {
        Connection::InputProperty { id } => id@,
        Connection::SingleOutputNode { id } => id@,
        Connection::Constant { id } => id@,
        Connection::ComplexOutputNode { id, .. } => id@,
    }
}

/// With separator-free ids, equal source keys tell sources apart up to the
/// accepted plain-kind ambiguity: a complex key holds a `:`, a plain key
/// does not, and the complex join is itself injective.
pub proof fn lemma_source_key_injective(from1: Connection, from2: Connection)
    requires
        source_separator_free(from1),
        source_separator_free(from2),
        source_key_seq(from1) == source_key_seq(from2),
    ensures
        same_source_key(from1, from2),
{
    reveal_strlit("::");
    lemma_source_key_shape(from1, from2);
    if from1 is ComplexOutputNode && from2 is ComplexOutputNode {
        match (from1, from2) {
            (
                Connection::ComplexOutputNode { id: i1, field_name: f1 },
                Connection::ComplexOutputNode { id: i2, field_name: f2 },
            ) => {
                lemma_sep_join_injective(i1@, f1@, i2@, f2@, "::"@, ':');
            },
            _ => {},
        }
    }
}

/// A complex source key holds a `:` where a separator-free plain key cannot,
/// so the two shapes never share a key.
proof fn lemma_source_key_shape(from1: Connection, from2: Connection)
    requires
        source_separator_free(from1),
        source_separator_free(from2),
        source_key_seq(from1) == source_key_seq(from2),
    ensures
        (from1 is ComplexOutputNode) == (from2 is ComplexOutputNode),
{
    reveal_strlit("::");
    if (from1 is ComplexOutputNode) != (from2 is ComplexOutputNode) {
        let (complex, plain) = if from1 is ComplexOutputNode {
            (from1, from2)
        } else {
            (from2, from1)
        };
        match complex {
            Connection::ComplexOutputNode { id, field_name } => {
                let k = id@ + "::"@ + field_name@;
                assert(k[id@.len() as int] == "::"@[0]);
                assert(source_key_seq(plain)[id@.len() as int] != ':');
            },
            _ => {},
        }
        assert(false);
    }
}

/// With separator-free ids, equal target keys force equal targets (at view
/// level): a node-field key holds a `:`, a property key does not.
pub proof fn lemma_target_key_injective(to1: ConnectionTo, to2: ConnectionTo)
    requires
        target_separator_free(to1),
        target_separator_free(to2),
        target_key_seq(to1) == target_key_seq(to2),
    ensures
        match (to1, to2) {
            (
                ConnectionTo::Node { id: i1, field_name: f1 },
                ConnectionTo::Node { id: i2, field_name: f2 },
            ) => i1@ == i2@ && f1@ == f2@,
            (
                ConnectionTo::OutputProperty { id: i1 },
                ConnectionTo::OutputProperty { id: i2 },
            ) => i1@ == i2@,
            _ => false,
        },
{
    reveal_strlit("::");
    match (to1, to2) {
        (
            ConnectionTo::Node { id: i1, field_name: f1 },
            ConnectionTo::Node { id: i2, field_name: f2 },
        ) => {
            lemma_sep_join_injective(i1@, f1@, i2@, f2@, "::"@, ':');
        },
        (ConnectionTo::Node { id, field_name }, ConnectionTo::OutputProperty { id: i2 }) => {
            let k = id@ + "::"@ + field_name@;
            assert(k[id@.len() as int] == "::"@[0]);
            assert(i2@[id@.len() as int] != ':');
        },
        (ConnectionTo::OutputProperty { id: i1 }, ConnectionTo::Node { id, field_name }) => {
            let k = id@ + "::"@ + field_name@;
            assert(k[id@.len() as int] == "::"@[0]);
            assert(i1@[id@.len() as int] != ':');
        },
        _ => {},
    }
}

} // verus!
