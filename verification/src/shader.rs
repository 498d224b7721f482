//! The identity layer of the currently loaded shader: five independent
//! id-to-handle indexes, one per entity family, and the operations that keep
//! them in step with the graph model and the view layer.

use crate::connection::{connector_id_seq, Connection, ConnectionTo};
use crate::index::EntityMap;
use crate::view::{despawn_all, Handle, LogLevel, ViewAction};
use vstd::prelude::*;
use vstd::string::StringExecFns;

verus! {

/// The five entity families, each with an id space and an index of its own.
#[derive(Clone, Copy, PartialEq, Eq, Structural, Debug)]
pub enum EntityFamily {
    Node,
    Constant,
    InputProperty,
    OutputProperty,
    Connection,
}

/// The identity layer of the currently loaded shader: for each entity
/// family, the single source of truth for which view-layer handle shows
/// which domain object.
#[derive(Debug)]
pub struct CurrentShader {
    pub name: String,
    pub node_entities: EntityMap,
    pub constants_entities: EntityMap,
    pub input_property_entities: EntityMap,
    pub output_property_entities: EntityMap,
    pub connection_entities: EntityMap,
}

impl CurrentShader {
    /// Every family's index is well-formed: no id is mapped twice.
    pub open spec fn wf(&self) -> bool {
        &&& self.node_entities.wf()
        &&& self.constants_entities.wf()
        &&& self.input_property_entities.wf()
        &&& self.output_property_entities.wf()
        &&& self.connection_entities.wf()
    }

    /// The index of one family.
    pub open spec fn family_view(&self, family: EntityFamily) -> Map<Seq<char>, Handle> {
        match family {
            EntityFamily::Node => self.node_entities@,
            EntityFamily::Constant => self.constants_entities@,
            EntityFamily::InputProperty => self.input_property_entities@,
            EntityFamily::OutputProperty => self.output_property_entities@,
            EntityFamily::Connection => self.connection_entities@,
        }
    }

    /// All maps and the name agree with `pre`, except the family named.
    pub open spec fn only_family_changed(pre: Self, post: Self, family: EntityFamily) -> bool {
        &&& post.name == pre.name
        &&& forall|g: EntityFamily| g != family ==> post.family_view(g) == pre.family_view(g)
    }
}

impl Default for CurrentShader {
    /// An empty identity layer: no shader loaded, nothing indexed.
    fn default() -> (r: Self)
        ensures
            r.wf(),
            r.name@ == Seq::<char>::empty(),
            forall|g: EntityFamily| r.family_view(g) == Map::<Seq<char>, Handle>::empty(),
    {
        CurrentShader {
            name: String::new(),
            node_entities: EntityMap::new(),
            constants_entities: EntityMap::new(),
            input_property_entities: EntityMap::new(),
            output_property_entities: EntityMap::new(),
            connection_entities: EntityMap::new(),
        }
    }
}

impl CurrentShader {
    /// The deterministic key of a connection, recomputed from its target and
    /// source: `{source_key}_{target_key}`, where a complex source or a node
    /// target contributes `{id}::{field_name}` and every other end its id.
    pub fn unique_connector_id(to: &ConnectionTo, from: &Connection) -> (r: String)
        ensures
            r@ == connector_id_seq(*to, *from),
    {
        let source = match from {
            Connection::InputProperty { id } => id.clone(),
            Connection::SingleOutputNode { id } => id.clone(),
            Connection::Constant { id } => id.clone(),
            Connection::ComplexOutputNode { id, field_name } => id.clone().concat("::").concat(
                field_name.as_str(),
            ),
        };
        let target = match to {
            ConnectionTo::Node { id, field_name } => id.clone().concat("::").concat(
                field_name.as_str(),
            ),
            ConnectionTo::OutputProperty { id } => id.clone(),
        };
        source.concat("_").concat(target.as_str())
    }

    /// Forgets the node id's handle and says to despawn it; a missing
    /// mapping is reported as a warning instead, and nothing changes.
    pub fn delete_node_entity(&mut self, id: &String) -> (action: ViewAction)
        requires
            old(self).wf(),
        ensures
            final(self).wf(),
            Self::only_family_changed(*old(self), *final(self), EntityFamily::Node),
            final(self).node_entities@ == old(self).node_entities@.remove(id@),
            old(self).node_entities@.contains_key(id@) ==> action == (ViewAction::Despawn {
                handle: old(self).node_entities@[id@],
            }),
            !old(self).node_entities@.contains_key(id@) ==> (action matches ViewAction::Log {
                level,
                message,
            } && level == LogLevel::Warn && message@ == "No entity for node "@ + id@),
    {
        match self.node_entities.remove(id) {
            Some(e) => ViewAction::Despawn { handle: e },
            None => ViewAction::Log {
                level: LogLevel::Warn,
                message: "No entity for node ".to_owned().concat(id.as_str()),
            },
        }
    }

    /// As `delete_node_entity`, for the constant family.
    pub fn delete_constant_entity(&mut self, id: &String) -> (action: ViewAction)
        requires
            old(self).wf(),
        ensures
            final(self).wf(),
            Self::only_family_changed(*old(self), *final(self), EntityFamily::Constant),
            final(self).constants_entities@ == old(self).constants_entities@.remove(id@),
            old(self).constants_entities@.contains_key(id@) ==> action == (ViewAction::Despawn {
                handle: old(self).constants_entities@[id@],
            }),
            !old(self).constants_entities@.contains_key(id@) ==> (action matches ViewAction::Log {
                level,
                message,
            } && level == LogLevel::Warn && message@ == "No entity for constant "@ + id@),
    {
        match self.constants_entities.remove(id) {
            Some(e) => ViewAction::Despawn { handle: e },
            None => ViewAction::Log {
                level: LogLevel::Warn,
                message: "No entity for constant ".to_owned().concat(id.as_str()),
            },
        }
    }

    /// As `delete_node_entity`, for the input property family.
    pub fn delete_input_property_entity(&mut self, id: &String) -> (action: ViewAction)
        requires
            old(self).wf(),
        ensures
            final(self).wf(),
            Self::only_family_changed(*old(self), *final(self), EntityFamily::InputProperty),
            final(self).input_property_entities@ == old(self).input_property_entities@.remove(id@),
            old(self).input_property_entities@.contains_key(id@) ==> action == (
            ViewAction::Despawn { handle: old(self).input_property_entities@[id@] }),
            !old(self).input_property_entities@.contains_key(id@)
                ==> (action matches ViewAction::Log { level, message } && level == LogLevel::Warn
                && message@ == "No entity for input "@ + id@),
    {
        match self.input_property_entities.remove(id) {
            Some(e) => ViewAction::Despawn { handle: e },
            None => ViewAction::Log {
                level: LogLevel::Warn,
                message: "No entity for input ".to_owned().concat(id.as_str()),
            },
        }
    }

    /// As `delete_node_entity`, for the output property family.
    pub fn delete_output_property_entity(&mut self, id: &String) -> (action: ViewAction)
        requires
            old(self).wf(),
        ensures
            final(self).wf(),
            Self::only_family_changed(*old(self), *final(self), EntityFamily::OutputProperty),
            final(self).output_property_entities@ == old(self).output_property_entities@.remove(
                id@,
            ),
            old(self).output_property_entities@.contains_key(id@) ==> action == (
            ViewAction::Despawn { handle: old(self).output_property_entities@[id@] }),
            !old(self).output_property_entities@.contains_key(id@)
                ==> (action matches ViewAction::Log { level, message } && level == LogLevel::Warn
                && message@ == "No entity for output "@ + id@),
    {
        match self.output_property_entities.remove(id) {
            Some(e) => ViewAction::Despawn { handle: e },
            None => ViewAction::Log {
                level: LogLevel::Warn,
                message: "No entity for output ".to_owned().concat(id.as_str()),
            },
        }
    }

    /// Forgets a committed connection's handle, keyed by the recomputed
    /// connector id, and says to despawn it. A committed connection must
    /// always have had a handle, so absence is an error, not a warning.
    pub fn delete_connection_entity(&mut self, to: &ConnectionTo, from: &Connection) -> (action:
        ViewAction)
        requires
            old(self).wf(),
        ensures
            final(self).wf(),
            Self::only_family_changed(*old(self), *final(self), EntityFamily::Connection),
            final(self).connection_entities@ == old(self).connection_entities@.remove(
                connector_id_seq(*to, *from),
            ),
            old(self).connection_entities@.contains_key(connector_id_seq(*to, *from)) ==> action
                == (ViewAction::Despawn {
                handle: old(self).connection_entities@[connector_id_seq(*to, *from)],
            }),
            !old(self).connection_entities@.contains_key(connector_id_seq(*to, *from))
                ==> (action matches ViewAction::Log { level, message } && level == LogLevel::Error
                && message@ == "No entity for connection "@ + connector_id_seq(*to, *from)),
    {
        let id = Self::unique_connector_id(to, from);
        match self.connection_entities.remove(&id) {
            Some(e) => ViewAction::Despawn { handle: e },
            None => ViewAction::Log {
                level: LogLevel::Error,
                message: "No entity for connection ".to_owned().concat(id.as_str()),
            },
        }
    }

    /// Drains every family's index, one despawn instruction per removed
    /// handle, in family order: nodes, constants, inputs, outputs,
    /// connections. Used only while replacing the whole graph.
    fn clear(&mut self) -> (actions: Vec<ViewAction>)
        requires
            old(self).wf(),
        ensures
            final(self).wf(),
            final(self).name == old(self).name,
            forall|g: EntityFamily| final(self).family_view(g) == Map::<Seq<char>, Handle>::empty(),
            actions@ == despawn_all(old(self).node_entities.handles()) + despawn_all(
                old(self).constants_entities.handles(),
            ) + despawn_all(old(self).input_property_entities.handles()) + despawn_all(
                old(self).output_property_entities.handles(),
            ) + despawn_all(old(self).connection_entities.handles()),
    {
        let mut actions: Vec<ViewAction> = Vec::new();
        let hs = self.node_entities.drain();
        push_despawns(&mut actions, hs);
        let hs = self.constants_entities.drain();
        push_despawns(&mut actions, hs);
        let hs = self.input_property_entities.drain();
        push_despawns(&mut actions, hs);
        let hs = self.output_property_entities.drain();
        push_despawns(&mut actions, hs);
        let hs = self.connection_entities.drain();
        push_despawns(&mut actions, hs);
        actions
    }

    /// Replaces the whole identity layer with a freshly built one: only once
    /// `loader` is fully built is the previous layer torn down, so a load
    /// that fails while building commits nothing. Returns one despawn per
    /// handle of the previous layer, then an `Info` line naming the loaded
    /// shader.
    pub fn load(&mut self, loader: ShaderLoader) -> (actions: Vec<ViewAction>)
        requires
            old(self).wf(),
            loader.wf(),
        ensures
            final(self).wf(),
            final(self).name == loader.name,
            forall|g: EntityFamily| final(self).family_view(g) == loader.family_view(g),
            actions@.len() > 0,
            actions@.drop_last() == despawn_all(old(self).node_entities.handles()) + despawn_all(
                old(self).constants_entities.handles(),
            ) + despawn_all(old(self).input_property_entities.handles()) + despawn_all(
                old(self).output_property_entities.handles(),
            ) + despawn_all(old(self).connection_entities.handles()),
            actions@.last() matches ViewAction::Log { level, message } && level == LogLevel::Info
                && message@ == "Successfully loaded shader "@ + loader.name@,
    {
        let mut actions = self.clear();
        *self = CurrentShader::from(loader);
        let message = "Successfully loaded shader ".to_owned().concat(self.name.as_str());
        actions.push(ViewAction::Log { level: LogLevel::Info, message });
        actions
    }
}

impl vstd::std_specs::convert::FromSpecImpl<ShaderLoader> for CurrentShader {
    open spec fn obeys_from_spec() -> bool {
        true
    }

    open spec fn from_spec(l: ShaderLoader) -> CurrentShader {
        CurrentShader {
            name: l.name,
            node_entities: l.node_entities,
            constants_entities: l.constants_entities,
            input_property_entities: l.input_property_entities,
            output_property_entities: l.output_property_entities,
            connection_entities: l.connection_entities,
        }
    }
}

impl From<ShaderLoader> for CurrentShader {
    /// A fully built loader becomes the current identity layer, index for
    /// index.
    fn from(l: ShaderLoader) -> (r: Self) {
        CurrentShader {
            name: l.name,
            node_entities: l.node_entities,
            constants_entities: l.constants_entities,
            input_property_entities: l.input_property_entities,
            output_property_entities: l.output_property_entities,
            connection_entities: l.connection_entities,
        }
    }
}

/// Appends one despawn instruction per handle, in order.
fn push_despawns(actions: &mut Vec<ViewAction>, handles: Vec<Handle>)
    ensures
        final(actions)@ == old(actions)@ + despawn_all(handles@),
{
    let n = handles.len();
    let mut i: usize = 0;
    while i < n
        invariant
            i <= n,
            n == handles@.len(),
            actions@ == old(actions)@ + despawn_all(handles@).take(i as int),
        decreases n - i,
    {
        actions.push(ViewAction::Despawn { handle: handles[i] });
        i += 1;
        proof {
            assert(actions@ =~= old(actions)@ + despawn_all(handles@).take(i as int));
        }
    }
    proof {
        assert(actions@ =~= old(actions)@ + despawn_all(handles@));
    }
}

/// A fresh identity layer under construction during a whole-graph load:
/// the same five indexes, filled in bulk by walking the new graph, and only
/// swapped in as current once complete.
#[derive(Debug)]
pub struct ShaderLoader {
    pub name: String,
    pub node_entities: EntityMap,
    pub constants_entities: EntityMap,
    pub input_property_entities: EntityMap,
    pub output_property_entities: EntityMap,
    pub connection_entities: EntityMap,
}

impl ShaderLoader {
    /// Every family's index is well-formed.
    pub open spec fn wf(&self) -> bool {
        &&& self.node_entities.wf()
        &&& self.constants_entities.wf()
        &&& self.input_property_entities.wf()
        &&& self.output_property_entities.wf()
        &&& self.connection_entities.wf()
    }

    /// The index of one family.
    pub open spec fn family_view(&self, family: EntityFamily) -> Map<Seq<char>, Handle> {
        match family {
            EntityFamily::Node => self.node_entities@,
            EntityFamily::Constant => self.constants_entities@,
            EntityFamily::InputProperty => self.input_property_entities@,
            EntityFamily::OutputProperty => self.output_property_entities@,
            EntityFamily::Connection => self.connection_entities@,
        }
    }

    /// An empty layer for the shader named `name`.
    pub fn new(name: String) -> (r: Self)
        ensures
            r.wf(),
            r.name == name,
            forall|g: EntityFamily| r.family_view(g) == Map::<Seq<char>, Handle>::empty(),
    {
        ShaderLoader {
            name,
            node_entities: EntityMap::new(),
            constants_entities: EntityMap::new(),
            input_property_entities: EntityMap::new(),
            output_property_entities: EntityMap::new(),
            connection_entities: EntityMap::new(),
        }
    }

    /// Records one walked element's handle under its id, in the family's
    /// index. The graph model never yields a duplicate id within a family.
    pub fn register(&mut self, family: EntityFamily, id: String, handle: Handle)
        requires
            old(self).wf(),
            !old(self).family_view(family).contains_key(id@),
        ensures
            final(self).wf(),
            final(self).name == old(self).name,
            final(self).family_view(family) == old(self).family_view(family).insert(id@, handle),
            forall|g: EntityFamily| g != family ==> final(self).family_view(g) == old(
                self,
            ).family_view(g),
    {
        match family {
            EntityFamily::Node => self.node_entities.insert(id, handle),
            EntityFamily::Constant => self.constants_entities.insert(id, handle),
            EntityFamily::InputProperty => self.input_property_entities.insert(id, handle),
            EntityFamily::OutputProperty => self.output_property_entities.insert(id, handle),
            EntityFamily::Connection => self.connection_entities.insert(id, handle),
        }
    }
}

} // verus!
