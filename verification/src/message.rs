//! Messages: an immutable set of named parameters addressed to an event key,
//! and the builder that accumulates the parameters.

use vstd::prelude::*;
use vstd::string::to_string_from_display_ensures;
use std::fmt::Display;
use std::hash::Hash;
use crate::event::event_key;
use crate::param::{ParamKind, ParamType, ParamValue};
use crate::payload::PayloadStore;

verus! {

/// Why a parameter could not be read.
#[derive(Clone, Copy, Debug, PartialEq, Eq, Structural)]
pub enum ChaosMessageError {
    /// The parameter was stored as one type and asked for as another.
    TypeMismatch { requested: ParamKind, stored: ParamKind },
}

/// What reading `name` as a `T` yields from the parameters `params`: nothing
/// where the name was never set, the stored value where it was set as a `T`,
/// and a mismatch where it was set as another type.
pub open spec fn read<T: ParamType>(params: Map<Seq<char>, ParamValue>, name: Seq<char>) -> Result<
    Option<T>,
    ChaosMessageError,
> {
    if !params.dom().contains(name) {
        Ok(None)
    } else if params[name].kind() == T::kind() {
        Ok(T::recovered(params[name]))
    } else {
        Err(ChaosMessageError::TypeMismatch { requested: T::kind(), stored: params[name].kind() })
    }
}

/// A parameter set to a value reads back, as the type it was set as, as that
/// same value, whatever the parameters held before.
pub proof fn lemma_round_trip<T: ParamType>(
    params: Map<Seq<char>, ParamValue>,
    name: Seq<char>,
    value: T,
)
    ensures
        read::<T>(params.insert(name, value.erased()), name) == Ok::<Option<T>, ChaosMessageError>(
            Some(value),
        ),
{
    T::lemma_erased(value);
}

/// A name that was never set reads as nothing, as whatever type it is asked
/// for.
pub proof fn lemma_absent_name<T: ParamType>(params: Map<Seq<char>, ParamValue>, name: Seq<char>)
    requires
        !params.dom().contains(name),
    ensures
        read::<T>(params, name) == Ok::<Option<T>, ChaosMessageError>(None),
{
}

/// Setting one parameter leaves what every other name reads as unchanged.
pub proof fn lemma_other_names_untouched<T: ParamType>(
    params: Map<Seq<char>, ParamValue>,
    name: Seq<char>,
    other: Seq<char>,
    value: ParamValue,
)
    requires
        other != name,
    ensures
        read::<T>(params.insert(other, value), name) == read::<T>(params, name),
{
}

/// A parameter set as one type and asked for as another is a mismatch that
/// names both types.
pub proof fn lemma_mismatch<T: ParamType, U: ParamType>(
    params: Map<Seq<char>, ParamValue>,
    name: Seq<char>,
    value: T,
)
    requires
        T::kind() != U::kind(),
    ensures
        read::<U>(params.insert(name, value.erased()), name) == Err::<Option<U>, ChaosMessageError>(
            ChaosMessageError::TypeMismatch { requested: U::kind(), stored: T::kind() },
        ),
{
    T::lemma_erased(value);
}

/// Accumulates named parameters, then finalizes them into a message.
pub struct ChaosMessageBuilder {
    data: PayloadStore,
}

impl View for ChaosMessageBuilder {
    type V = Map<Seq<char>, ParamValue>;

    /// The parameters set so far.
    closed spec fn view(&self) -> Map<Seq<char>, ParamValue> {
        self.data@
    }
}

/// What a message is: the key it is addressed to, the display form of the
/// descriptor the key was derived from, and its parameters.
pub ghost struct MessageView {
    pub event: u64,
    pub event_name: Seq<char>,
    pub params: Map<Seq<char>, ParamValue>,
}

/// A set of named parameters addressed to an event key. Never changes once
/// built.
pub struct ChaosMessage {
    event_hash: u64,
    event_name: String,
    data: PayloadStore,
}

impl View for ChaosMessage {
    type V = MessageView;

    closed spec fn view(&self) -> MessageView {
        MessageView { event: self.event_hash, event_name: self.event_name@, params: self.data@ }
    }
}

impl ChaosMessageBuilder {
    /// A builder with no parameters.
    pub fn new() -> (builder: Self)
        ensures
            builder@ == Map::<Seq<char>, ParamValue>::empty(),
    {
        ChaosMessageBuilder { data: PayloadStore::new() }
    }

    /// Sets the parameter `name` to `value`, in place of any earlier value and
    /// type under that name.
    pub fn with_param<T: ParamType>(self, name: &'static str, value: T) -> (builder: Self)
        ensures
            builder@ == self@.insert(name@, value.erased()),
    {
        ChaosMessageBuilder { data: self.data.insert(String::from_str(name), value.erase()) }
    }

    /// Finalizes the parameters into a message addressed to `event`, a key
    /// already derived from a descriptor whose display form is `event_name`.
    pub fn build_for_key(self, event: u64, event_name: String) -> (message: ChaosMessage)
        ensures
            message@ == (MessageView { event, event_name: event_name@, params: self@ }),
            message.event_label() == event_name,
    {
        ChaosMessage { event_hash: event, event_name, data: self.data }
    }

    /// Finalizes the parameters into a message addressed to the key of the
    /// descriptor `event`. The message remembers the descriptor's display
    /// form for diagnostics.
    pub fn build_for_event<T: Hash + Display>(self, event: T) -> (message: ChaosMessage)
        ensures
            message@.params == self@,
            to_string_from_display_ensures::<T>(&event, message.event_label()),
    {
        let key = event_key(&event);
        let name = event.to_string();
        self.build_for_key(key, name)
    }
}

impl ChaosMessage {
    /// The display form of the descriptor this message is addressed to, as
    /// the string it is held in.
    pub closed spec fn event_label(&self) -> String {
        self.event_name
    }

    /// The label is what the view shows as the event's name.
    pub proof fn lemma_event_label(&self)
        ensures
            self.event_label()@ == self@.event_name,
    {
    }

    /// Reads the parameter `name` as a `T`: `Ok(None)` where the name was
    /// never set, an owned copy of the value where it was set as a `T`, and
    /// a type mismatch where it was set as another type.
    pub fn try_get<T: ParamType>(&self, name: &'static str) -> (result: Result<
        Option<T>,
        ChaosMessageError,
    >)
        ensures
            result == read::<T>(self@.params, name@),
            !self@.params.dom().contains(name@) ==> result == Ok::<Option<T>, ChaosMessageError>(
                None,
            ),
    {
        let key = String::from_str(name);
        match self.data.get(&key) {
            None => Ok(None),
            Some(value) => {
                proof {
                    T::lemma_recovered(*value);
                }
                match T::recover(value) {
                    Some(x) => Ok(Some(x)),
                    None => Err(
                        ChaosMessageError::TypeMismatch {
                            requested: T::tag(),
                            stored: value.tag(),
                        },
                    ),
                }
            },
        }
    }

    /// Reads the parameter `name` as a `T`: nothing where the name was never
    /// set, else an owned copy of the value.
    ///
    /// A name that was set must have been set as a `T`; [`Self::try_get`]
    /// takes any name and type.
    pub fn get<T: ParamType>(&self, name: &'static str) -> (result: Option<T>)
        requires
            read::<T>(self@.params, name@) is Ok,
        ensures
            Ok::<Option<T>, ChaosMessageError>(result) == read::<T>(self@.params, name@),
            !self@.params.dom().contains(name@) ==> result is None,
    {
        match self.try_get::<T>(name) {
            Ok(found) => found,
            Err(_) => None,
        }
    }

    /// The key this message is addressed to.
    pub fn get_event(&self) -> (event: u64)
        ensures
            event == self@.event,
    {
        self.event_hash
    }

    /// The display form of the descriptor this message is addressed to.
    pub fn get_event_name(&self) -> (name: &str)
        ensures
            name@ == self@.event_name,
    {
        self.event_name.as_str()
    }
}

impl Clone for ChaosMessage {
    /// An independently owned copy: same key, same name, same parameters.
    fn clone(&self) -> (copy: Self)
        ensures
            copy@ == self@,
    {
        ChaosMessage {
            event_hash: self.event_hash,
            event_name: self.event_name.clone(),
            data: self.data.clone(),
        }
    }
}

} // verus!
