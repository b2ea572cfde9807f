//! The dispatch runtime: an object/action registry, a handler table with
//! overwrite-only registration, a global fallback, a per-action subscription
//! bus, and four monotonic metrics counters.
//!
//! Handlers and subscribers supplied by the host environment are values of a
//! caller-chosen type implementing [`HostCallback`]; nothing is assumed about
//! what such a callback returns, and the dispatch contract states what holds
//! of every outcome.

use vstd::prelude::*;
use std::collections::HashMap;
use crate::actions::ActionKey;
use crate::actions::action_id_from_name;
use crate::actions::spec_action_id;
use crate::actions::str_eq;
use crate::frame::fresh_header;
use crate::frame::mark_failure;
use crate::frame::le32_from_bytes;
use crate::frame::spec_le32;
use crate::text::push_u64_decimal;
use crate::text::spec_dec;
use vstd::string::StringExecFns;

verus! {

broadcast use vstd::std_specs::hash::group_hash_axioms;

/// Why an operation was refused.
#[derive(Debug, Clone, PartialEq, Eq)]
pub enum SpliceError<V> {
    /// An action name outside the fixed vocabulary.
    UnknownAction,
    /// An object-type name the runtime was not constructed with.
    UnknownObjectType,
    /// A builtin kind with no implementation.
    UnsupportedBuiltinKind,
    /// A subscription or emission key that is neither a name nor a number.
    InvalidActionKey,
    /// A host handler or the fallback failed; carries the host's error value.
    HandlerInvocationFailed(V),
}

/// A dispatch result value: nothing, a number computed by a builtin, or a
/// value produced by host code.
#[derive(Debug, Clone, PartialEq, Eq)]
pub enum DispatchValue<V> {
    Undefined,
    Num(u32),
    Host(V),
}

/// A dispatch payload: raw bytes, or an opaque host value that is not
/// byte-addressable.
#[derive(Debug, Clone)]
pub enum Payload<V> {
    Bytes(Vec<u8>),
    Opaque(V),
}

/// The frame representation handed to host handlers and subscribers: the
/// three-byte header, the object-type name, the payload, and the result
/// value as known at the time of the call.
pub struct ContextFrame<V> {
    pub header: [u8; 3],
    pub object_type: String,
    pub payload: Payload<V>,
    pub result_value: DispatchValue<V>,
}

/// A callable supplied by the host environment. The runtime assumes nothing
/// about what an invocation returns: every contract downstream states what
/// holds of both outcomes.
pub trait HostCallback {
    /// The host's value representation.
    type Value: Clone;

    /// Invoke the callback with a dispatch frame.
    fn invoke_frame(&self, frame: &ContextFrame<Self::Value>) -> Result<Self::Value, Self::Value>;

    /// Invoke the callback with a bare signal value.
    fn invoke_data(&self, data: &Self::Value) -> Result<Self::Value, Self::Value>;
}

/// A registered handler: the built-in echo, or a host-supplied callable.
pub enum HandlerKind<C> {
    RustEcho,
    Js(C),
}

/// The four monotonic counters: frames seen, dispatches completed, errors,
/// signals emitted.
#[derive(Clone, Copy, Debug, PartialEq, Eq, Structural)]
pub struct Metrics {
    pub frames: u64,
    pub dispatched: u64,
    pub errors: u64,
    pub signals: u64,
}

impl Metrics {
    /// All four counters at zero.
    pub open spec fn spec_zero() -> Metrics {
        Metrics { frames: 0, dispatched: 0, errors: 0, signals: 0 }
    }
}

impl Default for Metrics {
    /// The starting state: every counter at zero.
    fn default() -> (r: Metrics)
        ensures
            r == Metrics::spec_zero(),
    {
        Metrics { frames: 0, dispatched: 0, errors: 0, signals: 0 }
    }
}

/// The id a key resolves to, or the error the resolving operation reports.
pub open spec fn spec_key_id<V>(key: ActionKey) -> Result<u8, SpliceError<V>> {
    match key {
        ActionKey::Name(s) => match spec_action_id(s@) {
            Some(id) => Ok(id),
            None => Err(SpliceError::UnknownAction),
        },
        ActionKey::Id(i) => Ok(i),
        ActionKey::Other => Err(SpliceError::InvalidActionKey),
    }
}

/// The id assigned to an object-type name: the greatest index in the
/// construction list whose entry equals the name, so that a later duplicate
/// wins over an earlier one.
pub open spec fn spec_resolve_object(names: Seq<String>, name: Seq<char>) -> Option<int>
    decreases names.len(),
{
    if names.len() == 0 {
        None
    } else if names.last()@ == name {
        Some(names.len() - 1)
    } else {
        spec_resolve_object(names.drop_last(), name)
    }
}

/// A resolved object id always indexes the construction list.
pub proof fn lemma_resolve_object_in_range(names: Seq<String>, name: Seq<char>)
    ensures
        match spec_resolve_object(names, name) {
            Some(i) => 0 <= i < names.len(),
            None => true,
        },
    decreases names.len(),
{
    if names.len() > 0 && !(names.last()@ == name) {
        lemma_resolve_object_in_range(names.drop_last(), name);
    }
}

/// The dispatch runtime. Its well-formedness ties the handler table's shape
/// to the object list and the action-id bound it was constructed with.
pub struct WasmRuntime<C> {
    pub object_names: Vec<String>,
    pub max_action_id: usize,
    pub handlers: Vec<Vec<Option<HandlerKind<C>>>>,
    pub subs: HashMap<u8, Vec<C>>,
    pub metrics: Metrics,
    pub logger_level: Option<String>,
    pub fallback: Option<C>,
}

impl<C: HostCallback> WasmRuntime<C> {
    /// The handler stored at a table cell.
    pub open spec fn cell(self, obj: int, aid: int) -> Option<HandlerKind<C>> {
        self.handlers@[obj]@[aid]
    }

    /// Table shape: one row per object type, one cell per action id
    /// 0 ..= max_action_id.
    pub open spec fn wf(self) -> bool {
        &&& self.handlers@.len() == self.object_names@.len()
        &&& forall|i: int|
            0 <= i < self.handlers@.len() ==> (#[trigger] self.handlers@[i])@.len()
                == self.max_action_id + 1
    }

    /// Registration effect on the table: the named cell holds `h`, every
    /// other cell and the table shape are unchanged.
    pub open spec fn spec_table_set(
        pre: Self,
        post: Self,
        obj: int,
        aid: int,
        h: HandlerKind<C>,
    ) -> bool {
        &&& post.handlers@.len() == pre.handlers@.len()
        &&& forall|i: int|
            0 <= i < pre.handlers@.len() ==> (#[trigger] post.handlers@[i])@.len()
                == pre.handlers@[i]@.len()
        &&& post.cell(obj, aid) == Some(h)
        &&& forall|i: int, j: int|
            #![auto]
            0 <= i < pre.handlers@.len() && 0 <= j < pre.handlers@[i]@.len() && !(i == obj && j
                == aid) ==> post.cell(i, j) == pre.cell(i, j)
    }

    /// Everything but the handler table is unchanged.
    pub open spec fn same_except_table(pre: Self, post: Self) -> bool {
        &&& post.object_names == pre.object_names
        &&& post.max_action_id == pre.max_action_id
        &&& post.subs@ == pre.subs@
        &&& post.metrics == pre.metrics
        &&& post.logger_level == pre.logger_level
        &&& post.fallback == pre.fallback
    }

    /// Build a runtime from an ordered object-type list (two default names
    /// when none is supplied) and the largest action id the table must hold.
    /// Every table cell starts empty; every counter starts at zero.
    pub fn new(object_list: Option<Vec<String>>, max_action_id: u32) -> (r: WasmRuntime<C>)
        requires
            (max_action_id as int) < (usize::MAX as int),
        ensures
            r.wf(),
            r.max_action_id == max_action_id as usize,
            match object_list {
                Some(l) => r.object_names == l,
                None => r.object_names@.len() == 2 && r.object_names@[0]@ == "Object"@
                    && r.object_names@[1]@ == "Array"@,
            },
            forall|i: int, j: int|
                #![auto]
                0 <= i < r.handlers@.len() && 0 <= j < r.handlers@[i]@.len() ==> r.cell(
                    i,
                    j,
                ) is None,
            r.subs@ == Map::<u8, Vec<C>>::empty(),
            r.metrics == Metrics::spec_zero(),
            r.logger_level is None,
            r.fallback is None,
    {
        let objects: Vec<String> = match object_list {
            Some(l) => l,
            None => {
                let mut v: Vec<String> = Vec::new();
                v.push("Object".to_owned());
                v.push("Array".to_owned());
                v
            },
        };
        let max_a = max_action_id as usize;
        let obj_count = objects.len();
        let mut handlers: Vec<Vec<Option<HandlerKind<C>>>> = Vec::new();
        let mut i: usize = 0;
        while i < obj_count
            invariant
                max_a < usize::MAX,
                i <= obj_count,
                handlers@.len() == i,
                forall|k: int| 0 <= k < i ==> (#[trigger] handlers@[k])@.len() == max_a + 1,
                forall|k: int, j: int|
                    #![auto]
                    0 <= k < i && 0 <= j < handlers@[k]@.len() ==> handlers@[k]@[j] is None,
            decreases obj_count - i,
        {
            let mut row: Vec<Option<HandlerKind<C>>> = Vec::new();
            let mut j: usize = 0;
            while j < max_a + 1
                invariant
                    max_a < usize::MAX,
                    j <= max_a + 1,
                    row@.len() == j,
                    forall|l: int| 0 <= l < j ==> row@[l] is None,
                decreases max_a + 1 - j,
            {
                row.push(None);
                j = j + 1;
            }
            handlers.push(row);
            i = i + 1;
        }
        WasmRuntime {
            object_names: objects,
            max_action_id: max_a,
            handlers,
            subs: HashMap::new(),
            metrics: Metrics::default(),
            logger_level: None,
            fallback: None,
        }
    }

    /// Resolve an object-type name against the construction list; a later
    /// duplicate wins.
    pub fn resolve_object(&self, name: &str) -> (r: Option<usize>)
        ensures
            match r {
                Some(i) => spec_resolve_object(self.object_names@, name@) == Some(i as int) && i
                    < self.object_names@.len(),
                None => spec_resolve_object(self.object_names@, name@) is None,
            },
    {
        let ghost s = self.object_names@;
        let mut i = self.object_names.len();
        proof {
            assert(s.take(i as int) =~= s);
        }
        while i > 0
            invariant
                i <= s.len(),
                s == self.object_names@,
                spec_resolve_object(s, name@) == spec_resolve_object(s.take(i as int), name@),
            decreases i,
        {
            i = i - 1;
            let candidate: &String = &self.object_names[i];
            if str_eq(candidate.as_str(), name) {
                proof {
                    let t = s.take(i as int + 1);
                    assert(t.last() == s[i as int]);
                    assert(spec_resolve_object(t, name@) == Some(i as int));
                }
                return Some(i);
            }
            proof {
                let t = s.take(i as int + 1);
                assert(t.last() == s[i as int]);
                assert(t.drop_last() =~= s.take(i as int));
            }
        }
        proof {
            assert(s.take(0).len() == 0);
        }
        None
    }

    /// Set (or clear) the logger level; nothing else changes.
    pub fn use_logger(&mut self, level: Option<String>)
        ensures
            final(self).logger_level == level,
            final(self).handlers == old(self).handlers,
            final(self).object_names == old(self).object_names,
            final(self).max_action_id == old(self).max_action_id,
            final(self).subs@ == old(self).subs@,
            final(self).metrics == old(self).metrics,
            final(self).fallback == old(self).fallback,
    {
        self.logger_level = level;
    }

    /// Replace the single global fallback handler; nothing else changes.
    pub fn set_fallback(&mut self, func: Option<C>)
        ensures
            final(self).fallback == func,
            final(self).handlers == old(self).handlers,
            final(self).object_names == old(self).object_names,
            final(self).max_action_id == old(self).max_action_id,
            final(self).subs@ == old(self).subs@,
            final(self).metrics == old(self).metrics,
            final(self).logger_level == old(self).logger_level,
    {
        self.fallback = func;
    }

    /// Store the builtin named by `kind` at the cell for (object, action),
    /// overwriting any prior entry. Resolution failures and unsupported kinds
    /// are refused in that order, with no other effect.
    pub fn register_builtin(&mut self, object_type: &str, action_name: &str, kind: &str) -> (r:
        Result<(), SpliceError<C::Value>>)
        requires
            old(self).wf(),
            match spec_action_id(action_name@) {
                Some(aid) => spec_resolve_object(old(self).object_names@, object_type@) is Some
                    && (kind@ == "Echo"@ || kind@ == "echo"@) ==> aid as int <= old(
                    self,
                ).max_action_id as int,
                None => true,
            },
        ensures
            final(self).wf(),
            Self::same_except_table(*old(self), *final(self)),
            match spec_action_id(action_name@) {
                None => r == Err::<(), SpliceError<C::Value>>(SpliceError::UnknownAction) && final(self).handlers == old(self).handlers,
                Some(aid) => match spec_resolve_object(old(self).object_names@, object_type@) {
                    None => r == Err::<(), SpliceError<C::Value>>(SpliceError::UnknownObjectType)
                        && final(self).handlers == old(self).handlers,
                    Some(obj) => if kind@ == "Echo"@ || kind@ == "echo"@ {
                        r == Ok::<(), SpliceError<C::Value>>(()) && Self::spec_table_set(
                            *old(self),
                            *final(self),
                            obj,
                            aid as int,
                            HandlerKind::RustEcho,
                        )
                    } else {
                        r == Err::<(), SpliceError<C::Value>>(SpliceError::UnsupportedBuiltinKind)
                            && final(self).handlers == old(self).handlers
                    },
                },
            },
    {
        let action_id: u8 = match action_id_from_name(action_name) {
            Some(a) => a,
            None => {
                return Err(SpliceError::UnknownAction);
            },
        };
        let obj: usize = match self.resolve_object(object_type) {
            Some(o) => o,
            None => {
                return Err(SpliceError::UnknownObjectType);
            },
        };
        if !(str_eq(kind, "Echo") || str_eq(kind, "echo")) {
            return Err(SpliceError::UnsupportedBuiltinKind);
        }
        let aid = action_id as usize;
        self.handlers[obj][aid] = Some(HandlerKind::RustEcho);
        Ok(())
    }

    /// Store a host-supplied handler at the cell for (object, action),
    /// overwriting any prior entry. Resolution failures are refused with no
    /// other effect.
    pub fn register_js_handler(&mut self, object_type: &str, action_name: &str, func: C) -> (r:
        Result<(), SpliceError<C::Value>>)
        requires
            old(self).wf(),
            match spec_action_id(action_name@) {
                Some(aid) => spec_resolve_object(old(self).object_names@, object_type@) is Some
                    ==> aid as int <= old(self).max_action_id as int,
                None => true,
            },
        ensures
            final(self).wf(),
            Self::same_except_table(*old(self), *final(self)),
            match spec_action_id(action_name@) {
                None => r == Err::<(), SpliceError<C::Value>>(SpliceError::UnknownAction) && final(self).handlers == old(self).handlers,
                Some(aid) => match spec_resolve_object(old(self).object_names@, object_type@) {
                    None => r == Err::<(), SpliceError<C::Value>>(SpliceError::UnknownObjectType)
                        && final(self).handlers == old(self).handlers,
                    Some(obj) => r == Ok::<(), SpliceError<C::Value>>(()) && Self::spec_table_set(
                        *old(self),
                        *final(self),
                        obj,
                        aid as int,
                        HandlerKind::Js(func),
                    ),
                },
            },
    {
        let action_id: u8 = match action_id_from_name(action_name) {
            Some(a) => a,
            None => {
                return Err(SpliceError::UnknownAction);
            },
        };
        let obj: usize = match self.resolve_object(object_type) {
            Some(o) => o,
            None => {
                return Err(SpliceError::UnknownObjectType);
            },
        };
        let aid = action_id as usize;
        self.handlers[obj][aid] = Some(HandlerKind::Js(func));
        Ok(())
    }

    /// Append a subscriber to the observer list of the action the key names.
    /// A name outside the vocabulary or a key that is neither name nor number
    /// is refused with no other effect.
    pub fn subscribe(&mut self, action_key: ActionKey, callback: C) -> (r: Result<
        (),
        SpliceError<C::Value>,
    >)
        ensures
            final(self).handlers == old(self).handlers,
            final(self).object_names == old(self).object_names,
            final(self).max_action_id == old(self).max_action_id,
            final(self).metrics == old(self).metrics,
            final(self).logger_level == old(self).logger_level,
            final(self).fallback == old(self).fallback,
            match spec_key_id::<C::Value>(action_key) {
                Ok(id) => {
                    &&& r == Ok::<(), SpliceError<C::Value>>(())
                    &&& final(self).subs@.dom() == old(self).subs@.dom().insert(id)
                    &&& final(self).subs@[id]@ == (if old(self).subs@.contains_key(id) {
                        old(self).subs@[id]@.push(callback)
                    } else {
                        seq![callback]
                    })
                    &&& forall|k: u8|
                        #![auto]
                        k != id && old(self).subs@.contains_key(k) ==> final(self).subs@.contains_key(k) && final(self).subs@[k] == old(self).subs@[k]
                },
                Err(e) => r == Err::<(), SpliceError<C::Value>>(e) && final(self).subs@ == old(self).subs@,
            },
    {
        let id: u8 = match action_key {
            ActionKey::Name(s) => match action_id_from_name(s.as_str()) {
                Some(i) => i,
                None => {
                    return Err(SpliceError::UnknownAction);
                },
            },
            ActionKey::Id(i) => i,
            ActionKey::Other => {
                return Err(SpliceError::InvalidActionKey);
            },
        };
        let mut list: Vec<C> = match self.subs.remove(&id) {
            Some(l) => l,
            None => Vec::new(),
        };
        list.push(callback);
        self.subs.insert(id, list);
        proof {
            assert(self.subs@.dom() =~= old(self).subs@.dom().insert(id));
            if !old(self).subs@.contains_key(id) {
                assert(self.subs@[id]@ =~= seq![callback]);
            }
        }
        Ok(())
    }

    /// Invoke every subscriber of the action the key names with `data`,
    /// swallowing individual callback failures. A name outside the vocabulary
    /// or a key that is neither name nor number is refused before any
    /// subscriber runs.
    pub fn emit_signal(&self, action_key: ActionKey, data: &C::Value) -> (r: Result<
        (),
        SpliceError<C::Value>,
    >)
        ensures
            match spec_key_id::<C::Value>(action_key) {
                Ok(_) => r == Ok::<(), SpliceError<C::Value>>(()),
                Err(e) => r == Err::<(), SpliceError<C::Value>>(e),
            },
    {
        let id: u8 = match action_key {
            ActionKey::Name(s) => match action_id_from_name(s.as_str()) {
                Some(i) => i,
                None => {
                    return Err(SpliceError::UnknownAction);
                },
            },
            ActionKey::Id(i) => i,
            ActionKey::Other => {
                return Err(SpliceError::InvalidActionKey);
            },
        };
        match self.subs.get(&id) {
            Some(list) => {
                let mut k: usize = 0;
                while k < list.len()
                    invariant
                        k <= list@.len(),
                    decreases list@.len() - k,
                {
                    let _ = list[k].invoke_data(data);
                    k = k + 1;
                }
            },
            None => {},
        }
        Ok(())
    }

    /// Subscribe under an action name.
    pub fn on_signal(&mut self, action_name: &str, cb: C) -> (r: Result<(), SpliceError<C::Value>>)
        ensures
            final(self).handlers == old(self).handlers,
            final(self).object_names == old(self).object_names,
            final(self).max_action_id == old(self).max_action_id,
            final(self).metrics == old(self).metrics,
            final(self).logger_level == old(self).logger_level,
            final(self).fallback == old(self).fallback,
            match spec_action_id(action_name@) {
                Some(id) => {
                    &&& r == Ok::<(), SpliceError<C::Value>>(())
                    &&& final(self).subs@.dom() == old(self).subs@.dom().insert(id)
                    &&& final(self).subs@[id]@ == (if old(self).subs@.contains_key(id) {
                        old(self).subs@[id]@.push(cb)
                    } else {
                        seq![cb]
                    })
                    &&& forall|k: u8|
                        #![auto]
                        k != id && old(self).subs@.contains_key(k) ==> final(self).subs@.contains_key(k) && final(self).subs@[k] == old(self).subs@[k]
                },
                None => r == Err::<(), SpliceError<C::Value>>(SpliceError::UnknownAction) && final(self).subs@ == old(self).subs@,
            },
    {
        self.subscribe(ActionKey::Name(action_name.to_owned()), cb)
    }

    /// Emit a bare signal under an action name.
    pub fn emit_signal_by_name(&self, action_name: &str, data: &C::Value) -> (r: Result<
        (),
        SpliceError<C::Value>,
    >)
        ensures
            match spec_action_id(action_name@) {
                Some(_) => r == Ok::<(), SpliceError<C::Value>>(()),
                None => r == Err::<(), SpliceError<C::Value>>(SpliceError::UnknownAction),
            },
    {
        self.emit_signal(ActionKey::Name(action_name.to_owned()), data)
    }

    /// Resolve the action and object names, count the frame, run the handler
    /// at the resolved cell (or the fallback, or the degraded empty-cell
    /// path), notify every subscriber of the action, and count the dispatch.
    ///
    /// Resolution failures return immediately with no side effect. A host
    /// handler's failure propagates to the caller after counting an error;
    /// the degraded paths (echo payload too short or not byte-addressable,
    /// empty cell without fallback) count an error but still return normally.
    pub fn dispatch_signal(
        &mut self,
        action_name: &str,
        object_type: &str,
        payload: Payload<C::Value>,
    ) -> (r: Result<DispatchValue<C::Value>, SpliceError<C::Value>>)
        requires
            old(self).wf(),
            old(self).metrics.frames < u64::MAX,
            old(self).metrics.dispatched < u64::MAX,
            old(self).metrics.errors < u64::MAX,
            match spec_action_id(action_name@) {
                Some(aid) => spec_resolve_object(old(self).object_names@, object_type@) is Some
                    ==> aid as int <= old(self).max_action_id as int,
                None => true,
            },
        ensures
            final(self).wf(),
            final(self).handlers == old(self).handlers,
            final(self).object_names == old(self).object_names,
            final(self).max_action_id == old(self).max_action_id,
            final(self).subs@ == old(self).subs@,
            final(self).logger_level == old(self).logger_level,
            final(self).fallback == old(self).fallback,
            final(self).metrics.signals == old(self).metrics.signals,
            match spec_action_id(action_name@) {
                None => r == Err::<DispatchValue<C::Value>, SpliceError<C::Value>>(
                    SpliceError::UnknownAction,
                ) && final(self).metrics == old(self).metrics,
                Some(aid) => match spec_resolve_object(old(self).object_names@, object_type@) {
                    None => r == Err::<DispatchValue<C::Value>, SpliceError<C::Value>>(
                        SpliceError::UnknownObjectType,
                    ) && final(self).metrics == old(self).metrics,
                    Some(obj) => {
                        &&& final(self).metrics.frames == old(self).metrics.frames + 1
                        &&& final(self).metrics.dispatched == old(self).metrics.dispatched + 1
                        &&& match old(self).cell(obj, aid as int) {
                            Some(HandlerKind::RustEcho) => match payload {
                                Payload::Bytes(b) => if b@.len() >= 4 {
                                    r == Ok::<DispatchValue<C::Value>, SpliceError<C::Value>>(
                                        DispatchValue::Num(spec_le32(b@)),
                                    ) && final(self).metrics.errors == old(self).metrics.errors
                                } else {
                                    r == Ok::<DispatchValue<C::Value>, SpliceError<C::Value>>(
                                        DispatchValue::Num(0u32),
                                    ) && final(self).metrics.errors == old(self).metrics.errors + 1
                                },
                                Payload::Opaque(_) => r == Ok::<
                                    DispatchValue<C::Value>,
                                    SpliceError<C::Value>,
                                >(DispatchValue::Num(0u32)) && final(self).metrics.errors == old(self).metrics.errors + 1,
                            },
                            Some(HandlerKind::Js(_)) => match r {
                                Ok(DispatchValue::Host(_)) => final(self).metrics.errors == old(self).metrics.errors,
                                Err(SpliceError::HandlerInvocationFailed(_)) => final(self).metrics.errors == old(self).metrics.errors + 1,
                                _ => false,
                            },
                            None => if old(self).fallback is Some {
                                match r {
                                    Ok(DispatchValue::Host(_)) => final(self).metrics.errors == old(self).metrics.errors,
                                    Err(SpliceError::HandlerInvocationFailed(_)) => final(self).metrics.errors == old(self).metrics.errors + 1,
                                    _ => false,
                                }
                            } else {
                                r == Ok::<DispatchValue<C::Value>, SpliceError<C::Value>>(
                                    DispatchValue::Undefined,
                                ) && final(self).metrics.errors == old(self).metrics.errors + 1
                            },
                        }
                    },
                },
            },
    {
        let action_id: u8 = match action_id_from_name(action_name) {
            Some(a) => a,
            None => {
                return Err(SpliceError::UnknownAction);
            },
        };
        let obj: usize = match self.resolve_object(object_type) {
            Some(o) => o,
            None => {
                return Err(SpliceError::UnknownObjectType);
            },
        };
        self.metrics.frames = self.metrics.frames + 1;

        let mut ctx: ContextFrame<C::Value> = ContextFrame {
            header: fresh_header(action_id),
            object_type: object_type.to_owned(),
            payload,
            result_value: DispatchValue::Undefined,
        };

        let aid = action_id as usize;
        proof {
            assert(self.handlers@[obj as int]@.len() == self.max_action_id + 1);
        }
        let result: Result<DispatchValue<C::Value>, SpliceError<C::Value>>;
        let mut record_error: bool = false;

        match &self.handlers[obj][aid] {
            Some(HandlerKind::RustEcho) => {
                let ok: bool;
                let val: u32;
                match &ctx.payload {
                    Payload::Bytes(b) => {
                        if b.len() >= 4 {
                            val = le32_from_bytes(b.as_slice());
                            ok = true;
                        } else {
                            val = 0;
                            ok = false;
                        }
                    },
                    Payload::Opaque(_) => {
                        val = 0;
                        ok = false;
                    },
                }
                if ok {
                    ctx.result_value = DispatchValue::Num(val);
                    result = Ok(DispatchValue::Num(val));
                } else {
                    mark_failure(&mut ctx.header);
                    record_error = true;
                    result = Ok(DispatchValue::Num(0));
                }
            },
            Some(HandlerKind::Js(func)) => {
                match func.invoke_frame(&ctx) {
                    Ok(v) => {
                        ctx.result_value = DispatchValue::Host(v.clone());
                        result = Ok(DispatchValue::Host(v));
                    },
                    Err(e) => {
                        mark_failure(&mut ctx.header);
                        record_error = true;
                        result = Err(SpliceError::HandlerInvocationFailed(e));
                    },
                }
            },
            None => {
                match &self.fallback {
                    Some(fb) => {
                        match fb.invoke_frame(&ctx) {
                            Ok(v) => {
                                ctx.result_value = DispatchValue::Host(v.clone());
                                result = Ok(DispatchValue::Host(v));
                            },
                            Err(e) => {
                                mark_failure(&mut ctx.header);
                                record_error = true;
                                result = Err(SpliceError::HandlerInvocationFailed(e));
                            },
                        }
                    },
                    None => {
                        mark_failure(&mut ctx.header);
                        record_error = true;
                        result = Ok(DispatchValue::Undefined);
                    },
                }
            },
        }
        if record_error {
            self.metrics.errors = self.metrics.errors + 1;
        }
        match self.subs.get(&action_id) {
            Some(list) => {
                let mut k: usize = 0;
                while k < list.len()
                    invariant
                        k <= list@.len(),
                    decreases list@.len() - k,
                {
                    let _ = list[k].invoke_frame(&ctx);
                    k = k + 1;
                }
            },
            None => {},
        }
        self.metrics.dispatched = self.metrics.dispatched + 1;
        result
    }

    /// A read-only snapshot of the four counters.
    pub fn metrics(&self) -> (r: Metrics)
        ensures
            r == self.metrics,
    {
        self.metrics
    }

    /// How many of the first `n` cells of a row hold a handler.
    pub open spec fn spec_row_handlers(row: Seq<Option<HandlerKind<C>>>) -> int
        decreases row.len(),
    {
        if row.len() == 0 {
            0
        } else {
            Self::spec_row_handlers(row.drop_last()) + (if row.last() is Some {
                1int
            } else {
                0int
            })
        }
    }

    /// How many cells of the first `n` rows hold a handler.
    pub open spec fn spec_handlers_upto(t: Seq<Vec<Option<HandlerKind<C>>>>, n: int) -> int
        decreases n,
    {
        if n <= 0 {
            0
        } else {
            Self::spec_handlers_upto(t, n - 1) + Self::spec_row_handlers(t[n - 1]@)
        }
    }

    /// How many cells of the whole table hold a handler.
    pub open spec fn spec_handler_count(self) -> int {
        Self::spec_handlers_upto(self.handlers@, self.handlers@.len() as int)
    }

    /// The summary line: handler count, then the signal, frame, dispatch and
    /// error counters, each rendered in decimal.
    pub open spec fn spec_summary(self) -> Seq<char> {
        spec_dec(self.spec_handler_count()) + " handlers, "@ + spec_dec(
            self.metrics.signals as int,
        ) + " signals, "@ + spec_dec(self.metrics.frames as int) + " frames, "@ + spec_dec(
            self.metrics.dispatched as int,
        ) + " dispatched, "@ + spec_dec(self.metrics.errors as int) + " errors"@
    }

    /// Count the non-empty handler cells.
    fn count_handlers(&self) -> (r: usize)
        requires
            self.wf(),
            self.object_names@.len() * (self.max_action_id + 1) <= usize::MAX,
        ensures
            r as int == self.spec_handler_count(),
    {
        let ghost t = self.handlers@;
        let ghost cols = self.max_action_id as int + 1;
        let mut count: usize = 0;
        let mut i: usize = 0;
        let rows = self.handlers.len();
        proof {
            assert(t.len() * cols <= usize::MAX);
        }
        while i < rows
            invariant
                self.wf(),
                t == self.handlers@,
                cols == self.max_action_id as int + 1,
                rows == t.len(),
                t.len() * cols <= usize::MAX,
                i <= rows,
                count as int == Self::spec_handlers_upto(t, i as int),
                count as int <= i as int * cols,
            decreases rows - i,
        {
            let row = &self.handlers[i];
            let cells = row.len();
            let mut rc: usize = 0;
            let mut j: usize = 0;
            while j < cells
                invariant
                    cells == row@.len(),
                    j <= cells,
                    rc as int == Self::spec_row_handlers(row@.take(j as int)),
                    rc <= j,
                decreases cells - j,
            {
                let ghost pre = row@.take(j as int);
                let is_some = match &row[j] {
                    Some(_) => true,
                    None => false,
                };
                proof {
                    let cur = row@.take(j as int + 1);
                    assert(cur.last() == row@[j as int]);
                    assert(cur.drop_last() =~= pre);
                }
                if is_some {
                    rc = rc + 1;
                }
                j = j + 1;
            }
            proof {
                assert(row@.take(cells as int) =~= row@);
                assert(row@.len() == cols);
                assert((i as int + 1) * cols == i as int * cols + cols) by (nonlinear_arith);
                assert((i as int + 1) * cols <= t.len() * cols) by (nonlinear_arith)
                    requires
                        i as int + 1 <= t.len(),
                        cols > 0,
                ;
            }
            count = count + rc;
            i = i + 1;
        }
        count
    }

    /// The human-readable summary: how many handler cells are filled, and the
    /// four counters, in one line.
    pub fn get_summary(&self) -> (r: String)
        requires
            self.wf(),
            self.object_names@.len() * (self.max_action_id + 1) <= usize::MAX,
        ensures
            r@ == self.spec_summary(),
    {
        let count = self.count_handlers();
        let mut s = String::new();
        push_u64_decimal(&mut s, count as u64);
        s.append(" handlers, ");
        push_u64_decimal(&mut s, self.metrics.signals);
        s.append(" signals, ");
        push_u64_decimal(&mut s, self.metrics.frames);
        s.append(" frames, ");
        push_u64_decimal(&mut s, self.metrics.dispatched);
        s.append(" dispatched, ");
        push_u64_decimal(&mut s, self.metrics.errors);
        s.append(" errors");
        proof {
            assert(s@ =~= self.spec_summary());
        }
        s
    }

    /// Registering twice at the same cell: the second registration wins, and
    /// every other cell is exactly as it was before either registration.
    pub proof fn lemma_second_registration_wins(
        t0: WasmRuntime<C>,
        t1: WasmRuntime<C>,
        t2: WasmRuntime<C>,
        obj: int,
        aid: int,
        h1: HandlerKind<C>,
        h2: HandlerKind<C>,
    )
        requires
            0 <= obj < t0.handlers@.len(),
            0 <= aid < t0.handlers@[obj]@.len(),
            Self::spec_table_set(t0, t1, obj, aid, h1),
            Self::spec_table_set(t1, t2, obj, aid, h2),
        ensures
            t2.cell(obj, aid) == Some(h2),
            forall|i: int, j: int|
                #![auto]
                0 <= i < t0.handlers@.len() && 0 <= j < t0.handlers@[i]@.len() && !(i == obj && j
                    == aid) ==> t2.cell(i, j) == t0.cell(i, j),
    {
    }

    /// Reading the metrics never changes them: any two snapshots of the same
    /// runtime state are identical.
    pub proof fn lemma_metrics_snapshot_idempotent(rt: WasmRuntime<C>, m1: Metrics, m2: Metrics)
        requires
            m1 == rt.metrics,
            m2 == rt.metrics,
        ensures
            m1 == m2,
    {
    }
}

} // verus!
