//! The consuming bridges.
//!
//! Each bridge holds one concrete serde object of the consuming side (a deserializer, a
//! visitor, a seed, or an access to a sequence, a map or an enum), or what it turned into.
//! Each operation of the dynamic facade takes what the bridge holds, hands it to the concrete
//! object, and stores the result under a new tag. The facade returns only a payload-free
//! [`DeserializerError`] status; a decoded value travels back through the visitor or the seed
//! that the generic caller handed over.
use vstd::prelude::*;

pub use crate::error::{DeserializeError, DeserializeResult, DeserializerError, DeserializerResult};

verus! {

/// The status of a call whose concrete operation returned `result`.
pub open spec fn status_of<X, E>(result: Result<X, E>) -> DeserializerResult<X> {
    match result {
        Ok(x) => Ok(x),
        Err(_) => Err(DeserializerError::Error),
    }
}

/// The error handed back to a generic caller when a facade call left no value behind:
/// the status of the call, or, where the call claimed success without delivering a value,
/// the status of the facade that was never fed.
pub open spec fn missing_value_error<X>(
    result: DeserializerResult<X>,
    unfed: DeserializerError,
) -> DeserializeError {
    match result {
        Err(status) => DeserializeError::DeserializerError(status),
        Ok(_) => DeserializeError::DeserializerError(unfed),
    }
}

fn missing_value<X>(result: DeserializerResult<X>, unfed: DeserializerError) -> (r:
    DeserializeError)
    ensures
        r == missing_value_error(result, unfed),
{
    match result {
        Err(status) => DeserializeError::DeserializerError(status),
        Ok(_) => DeserializeError::DeserializerError(unfed),
    }
}

/// How a call made through a bridge ended, once the bridge is taken apart.
#[derive(Debug)]
pub enum Ending<E, X> {
    /// The call succeeded.
    Succeeded,
    /// The concrete object failed with this error, which the bridge kept.
    Failed(E),
    /// The call through the facade failed with this error, though the concrete object did
    /// not.
    Refused(X),
}

/// How a call ends when the bridge kept `failure` and the facade call returned `result`: the
/// kept error comes first, then the facade's own error.
pub open spec fn ending<E, X>(failure: Option<E>, result: Result<(), X>) -> Ending<E, X> {
    match failure {
        Some(e) => Ending::Failed(e),
        None => match result {
            Ok(_) => Ending::Succeeded,
            Err(x) => Ending::Refused(x),
        },
    }
}

fn settle<E, X>(failure: Option<E>, result: Result<(), X>) -> (r: Ending<E, X>)
    ensures
        r == ending(failure, result),
{
    match failure {
        Some(e) => Ending::Failed(e),
        None => match result {
            Ok(_) => Ending::Succeeded,
            Err(x) => Ending::Refused(x),
        },
    }
}

/// The single-use adapter around a concrete deserializer `D`, which fails with `E`.
#[derive(Debug)]
pub enum InplaceDeserializer<D, E> {
    /// Nothing is held: the deserializer was taken out for a call.
    Empty,
    /// The deserializer failed with this error.
    Failed(E),
    /// The deserializer is ready for one value.
    Deserializer(D),
}

impl<D, E> InplaceDeserializer<D, E> {
    /// What a call that needs the ready deserializer gets from this stage.
    pub open spec fn taken_deserializer(&self) -> Result<D, DeserializerError> {
        match *self {
            InplaceDeserializer::Deserializer(d) => Ok(d),
            _ => Err(DeserializerError::Deserializer),
        }
    }

    /// A bridge around a deserializer that is ready for one value.
    pub fn new(deserializer: D) -> (r: Self)
        ensures
            r == Self::Deserializer(deserializer),
    {
        InplaceDeserializer::Deserializer(deserializer)
    }

    /// Takes the ready deserializer out for a call. Where it is not
    /// ready, the call is refused and the bridge keeps what it held.
    pub fn take_deserializer(&mut self) -> (r: Result<D, DeserializerError>)
        ensures
            r == old(self).taken_deserializer(),
            r is Ok ==> *final(self) is Empty,
            r is Err ==> *final(self) == *old(self),
    {
        if let InplaceDeserializer::Deserializer(_) = self {
            let mut stage = Self::Empty;
            std::mem::swap(self, &mut stage);
            match stage {
                InplaceDeserializer::Deserializer(d) => Ok(d),
                _ => Err(DeserializerError::Deserializer),
            }
        } else {
            Err(DeserializerError::Deserializer)
        }
    }

    /// Records what the deserializer's call returned: on failure the error is stored and the
    /// status is a failure; on success the bridge is left as it was, since the value went to
    /// the visitor.
    pub fn record(&mut self, result: Result<(), E>) -> (r: DeserializerResult<()>)
        ensures
            r == status_of(result),
            result is Ok ==> *final(self) == *old(self),
            result matches Err(e) ==> *final(self) == Self::Failed(e),
    {
        match result {
            Ok(()) => Ok(()),
            Err(e) => {
                *self = InplaceDeserializer::Failed(e);
                Err(DeserializerError::Error)
            },
        }
    }

    /// The ready deserializer, for a query that does not consume it.
    pub fn deserializer(&self) -> (r: Option<&D>)
        ensures
            r == (match *self {
                InplaceDeserializer::Deserializer(d) => Some(&d),
                _ => None,
            }),
    {
        match self {
            InplaceDeserializer::Deserializer(d) => Some(d),
            _ => None,
        }
    }

    /// Takes the bridge apart: the error it failed with, if it failed.
    pub fn failure(self) -> (r: Option<E>)
        ensures
            r == (match self {
                InplaceDeserializer::Failed(e) => Some(e),
                _ => None,
            }),
    {
        match self {
            InplaceDeserializer::Failed(e) => Some(e),
            _ => None,
        }
    }

    /// Takes the bridge apart once the facade call made with it returned `result`: the error
    /// the bridge kept, if it failed; otherwise what the call returned.
    pub fn settle<X>(self, result: Result<(), X>) -> (r: Ending<E, X>)
        ensures
            r == ending(
                match self {
                    InplaceDeserializer::Failed(e) => Some(e),
                    _ => None,
                },
                result,
            ),
    {
        settle(self.failure(), result)
    }
}

/// The single-use adapter around a concrete visitor `V`, which produces a `Val`.
#[derive(Debug)]
pub enum InplaceVisitor<V, Val> {
    /// Nothing is held: the visitor was taken out for a call.
    Empty,
    /// The visitor produced this value.
    Value(Val),
    /// The visitor is ready for one callback.
    Visitor(V),
}

impl<V, Val> InplaceVisitor<V, Val> {
    /// What a callback gets from this stage.
    pub open spec fn taken_visitor(&self) -> Result<V, DeserializeError> {
        match *self {
            InplaceVisitor::Visitor(v) => Ok(v),
            _ => Err(DeserializeError::DeserializerError(DeserializerError::Visitor)),
        }
    }

    /// What a generic caller gets once the deserializer returned `result` to it.
    pub open spec fn concluded(self, result: DeserializerResult<()>) -> DeserializeResult<Val> {
        match self {
            InplaceVisitor::Value(v) => Ok(v),
            _ => Err(missing_value_error(result, DeserializerError::Visitor)),
        }
    }

    /// A bridge around a visitor that is ready for one callback.
    pub fn new(visitor: V) -> (r: Self)
        ensures
            r == Self::Visitor(visitor),
    {
        InplaceVisitor::Visitor(visitor)
    }

    /// Takes the ready visitor out for a callback. Where it is
    /// not ready, the call is refused and the bridge keeps what it held.
    pub fn take_visitor(&mut self) -> (r: Result<V, DeserializeError>)
        ensures
            r == old(self).taken_visitor(),
            r is Ok ==> *final(self) is Empty,
            r is Err ==> *final(self) == *old(self),
    {
        if let InplaceVisitor::Visitor(_) = self {
            let mut stage = Self::Empty;
            std::mem::swap(self, &mut stage);
            match stage {
                InplaceVisitor::Visitor(v) => Ok(v),
                _ => Err(DeserializeError::DeserializerError(DeserializerError::Visitor)),
            }
        } else {
            Err(DeserializeError::DeserializerError(DeserializerError::Visitor))
        }
    }

    /// Stores the value that the visitor produced, or passes its error on.
    pub fn store(&mut self, result: DeserializeResult<Val>) -> (r: DeserializeResult<()>)
        ensures
            result matches Ok(v) ==> *final(self) == Self::Value(v) && r is Ok,
            result matches Err(e) ==> *final(self) == *old(self) && r == Err::<(), _>(e),
    {
        match result {
            Ok(v) => {
                *self = InplaceVisitor::Value(v);
                Ok(())
            },
            Err(e) => Err(e),
        }
    }

    /// The ready visitor, for a query that does not consume it.
    pub fn visitor(&self) -> (r: Option<&V>)
        ensures
            r == (match *self {
                InplaceVisitor::Visitor(v) => Some(&v),
                _ => None,
            }),
    {
        match self {
            InplaceVisitor::Visitor(v) => Some(v),
            _ => None,
        }
    }

    /// Takes the bridge apart once the deserializer returned `result`: the produced value,
    /// or the error that explains why there is none.
    pub fn conclude(self, result: DeserializerResult<()>) -> (r: DeserializeResult<Val>)
        ensures
            r == self.concluded(result),
    {
        match self {
            InplaceVisitor::Value(v) => Ok(v),
            _ => Err(missing_value(result, DeserializerError::Visitor)),
        }
    }
}

/// The single-use adapter around a concrete seed `T`, which decodes a `Val`.
#[derive(Debug)]
pub enum InplaceDeserializeSeed<T, Val> {
    /// Nothing is held: the seed was taken out for a call.
    Empty,
    /// The seed decoded this value.
    Value(Val),
    /// The seed is ready to decode one value.
    DeserializeSeed(T),
}

impl<T, Val> InplaceDeserializeSeed<T, Val> {
    /// What a decoding call gets from this stage.
    pub open spec fn taken_seed(&self) -> Result<T, DeserializeError> {
        match *self {
            InplaceDeserializeSeed::DeserializeSeed(t) => Ok(t),
            _ => Err(DeserializeError::DeserializerError(DeserializerError::DeserializeSeed)),
        }
    }

    /// What a generic caller gets once an access returned `result` for one value.
    pub open spec fn concluded(self, result: DeserializerResult<()>) -> DeserializeResult<Val> {
        match self {
            InplaceDeserializeSeed::Value(v) => Ok(v),
            _ => Err(missing_value_error(result, DeserializerError::DeserializeSeed)),
        }
    }

    /// What a generic caller gets once an access returned `result` for a value that may be
    /// absent: `Ok(None)` means the access had no more values.
    pub open spec fn concluded_next(self, result: DeserializerResult<Option<()>>) ->
        DeserializeResult<Option<Val>> {
        match self {
            InplaceDeserializeSeed::Value(v) => Ok(Some(v)),
            _ => match result {
                Ok(None) => Ok(None),
                _ => Err(missing_value_error(result, DeserializerError::DeserializeSeed)),
            },
        }
    }

    /// A bridge around a seed that is ready to decode one value.
    pub fn new(seed: T) -> (r: Self)
        ensures
            r == Self::DeserializeSeed(seed),
    {
        InplaceDeserializeSeed::DeserializeSeed(seed)
    }

    /// Takes the ready seed out for a call. Where it is not
    /// ready, the call is refused and the bridge keeps what it held.
    pub fn take_seed(&mut self) -> (r: Result<T, DeserializeError>)
        ensures
            r == old(self).taken_seed(),
            r is Ok ==> *final(self) is Empty,
            r is Err ==> *final(self) == *old(self),
    {
        if let InplaceDeserializeSeed::DeserializeSeed(_) = self {
            let mut stage = Self::Empty;
            std::mem::swap(self, &mut stage);
            match stage {
                InplaceDeserializeSeed::DeserializeSeed(t) => Ok(t),
                _ => Err(DeserializeError::DeserializerError(DeserializerError::DeserializeSeed)),
            }
        } else {
            Err(DeserializeError::DeserializerError(DeserializerError::DeserializeSeed))
        }
    }

    /// Stores the value that the seed decoded, or passes its error on.
    pub fn store(&mut self, result: DeserializeResult<Val>) -> (r: DeserializeResult<()>)
        ensures
            result matches Ok(v) ==> *final(self) == Self::Value(v) && r is Ok,
            result matches Err(e) ==> *final(self) == *old(self) && r == Err::<(), _>(e),
    {
        match result {
            Ok(v) => {
                *self = InplaceDeserializeSeed::Value(v);
                Ok(())
            },
            Err(e) => Err(e),
        }
    }

    /// Takes the bridge apart once an access returned `result` for one value.
    pub fn conclude(self, result: DeserializerResult<()>) -> (r: DeserializeResult<Val>)
        ensures
            r == self.concluded(result),
    {
        match self {
            InplaceDeserializeSeed::Value(v) => Ok(v),
            _ => Err(missing_value(result, DeserializerError::DeserializeSeed)),
        }
    }

    /// Takes the bridge apart once an access returned `result` for a value that may be
    /// absent.
    pub fn conclude_next(self, result: DeserializerResult<Option<()>>) -> (r: DeserializeResult<
        Option<Val>,
    >)
        ensures
            r == self.concluded_next(result),
    {
        match self {
            InplaceDeserializeSeed::Value(v) => Ok(Some(v)),
            _ => match result {
                Ok(None) => Ok(None),
                _ => Err(missing_value(result, DeserializerError::DeserializeSeed)),
            },
        }
    }

    /// Takes a key seed and a value seed apart once a map access returned `result` for an
    /// entry: both values, or `Ok(None)` where the map had no more entries.
    pub fn conclude_entry<U, W>(
        self,
        value_seed: InplaceDeserializeSeed<U, W>,
        result: DeserializerResult<Option<((), ())>>,
    ) -> (r: DeserializeResult<Option<(Val, W)>>)
        ensures
            r == (match (self, value_seed) {
                (InplaceDeserializeSeed::Value(k), InplaceDeserializeSeed::Value(v)) => Ok(
                    Some((k, v)),
                ),
                _ => match result {
                    Ok(None) => Ok(None),
                    _ => Err(missing_value_error(result, DeserializerError::DeserializeSeed)),
                },
            }),
    {
        match (self, value_seed) {
            (InplaceDeserializeSeed::Value(k), InplaceDeserializeSeed::Value(v)) => Ok(
                Some((k, v)),
            ),
            _ => match result {
                Ok(None) => Ok(None),
                _ => Err(missing_value(result, DeserializerError::DeserializeSeed)),
            },
        }
    }
}


/// The single-use adapter around a concrete access `A` to the elements of a sequence, which fails
/// with `E`. The access may be a borrow that lives only as long as the surrounding call.
#[derive(Debug)]
pub enum InplaceSeqAccess<A, E> {
    /// Nothing is held: the access was taken out for a call.
    Empty,
    /// The access failed with this error.
    Failed(E),
    /// The access is ready.
    SeqAccess(A),
}

impl<A, E> InplaceSeqAccess<A, E> {
    /// What a call on the access gets from this stage.
    pub open spec fn taken_access(&self) -> Result<A, DeserializerError> {
        match *self {
            InplaceSeqAccess::SeqAccess(a) => Ok(a),
            _ => Err(DeserializerError::SeqAccess),
        }
    }

    /// A bridge around a ready access.
    pub fn new(access: A) -> (r: Self)
        ensures
            r == Self::SeqAccess(access),
    {
        InplaceSeqAccess::SeqAccess(access)
    }

    /// Takes the ready access out for a call. Where it is not ready, the bridge is left as it
    /// was.
    pub fn take_access(&mut self) -> (r: Result<A, DeserializerError>)
        ensures
            r == old(self).taken_access(),
            r is Ok ==> *final(self) is Empty,
            r is Err ==> *final(self) == *old(self),
    {
        if let InplaceSeqAccess::SeqAccess(_) = self {
            let mut stage = Self::Empty;
            std::mem::swap(self, &mut stage);
            match stage {
                InplaceSeqAccess::SeqAccess(a) => Ok(a),
                _ => Err(DeserializerError::SeqAccess),
            }
        } else {
            Err(DeserializerError::SeqAccess)
        }
    }

    /// Puts the access back after a call that returned `result`, or stores the error that
    /// the call returned, which makes the status a failure.
    pub fn resume<X>(&mut self, access: A, result: Result<X, E>) -> (r: DeserializerResult<X>)
        ensures
            r == status_of(result),
            result is Ok ==> *final(self) == Self::SeqAccess(access),
            result matches Err(e) ==> *final(self) == Self::Failed(e),
    {
        match result {
            Ok(x) => {
                *self = InplaceSeqAccess::SeqAccess(access);
                Ok(x)
            },
            Err(e) => {
                *self = InplaceSeqAccess::Failed(e);
                Err(DeserializerError::Error)
            },
        }
    }

    /// The ready access, for a query that does not consume it.
    pub fn access(&self) -> (r: Option<&A>)
        ensures
            r == (match *self {
                InplaceSeqAccess::SeqAccess(a) => Some(&a),
                _ => None,
            }),
    {
        match self {
            InplaceSeqAccess::SeqAccess(a) => Some(a),
            _ => None,
        }
    }

    /// Takes the bridge apart: the error it failed with, if it failed.
    pub fn failure(self) -> (r: Option<E>)
        ensures
            r == (match self {
                InplaceSeqAccess::Failed(e) => Some(e),
                _ => None,
            }),
    {
        match self {
            InplaceSeqAccess::Failed(e) => Some(e),
            _ => None,
        }
    }

    /// Takes the bridge apart once the facade call made with it returned `result`: the error
    /// the bridge kept, if it failed; otherwise what the call returned.
    pub fn settle<X>(self, result: Result<(), X>) -> (r: Ending<E, X>)
        ensures
            r == ending(
                match self {
                    InplaceSeqAccess::Failed(e) => Some(e),
                    _ => None,
                },
                result,
            ),
    {
        settle(self.failure(), result)
    }
}

/// The single-use adapter around a concrete access `A` to the elements of a map, which fails
/// with `E`. The access may be a borrow that lives only as long as the surrounding call.
#[derive(Debug)]
pub enum InplaceMapAccess<A, E> {
    /// Nothing is held: the access was taken out for a call.
    Empty,
    /// The access failed with this error.
    Failed(E),
    /// The access is ready.
    MapAccess(A),
}

impl<A, E> InplaceMapAccess<A, E> {
    /// What a call on the access gets from this stage.
    pub open spec fn taken_access(&self) -> Result<A, DeserializerError> {
        match *self {
            InplaceMapAccess::MapAccess(a) => Ok(a),
            _ => Err(DeserializerError::MapAccess),
        }
    }

    /// A bridge around a ready access.
    pub fn new(access: A) -> (r: Self)
        ensures
            r == Self::MapAccess(access),
    {
        InplaceMapAccess::MapAccess(access)
    }

    /// Takes the ready access out for a call. Where it is not ready, the bridge is left as it
    /// was.
    pub fn take_access(&mut self) -> (r: Result<A, DeserializerError>)
        ensures
            r == old(self).taken_access(),
            r is Ok ==> *final(self) is Empty,
            r is Err ==> *final(self) == *old(self),
    {
        if let InplaceMapAccess::MapAccess(_) = self {
            let mut stage = Self::Empty;
            std::mem::swap(self, &mut stage);
            match stage {
                InplaceMapAccess::MapAccess(a) => Ok(a),
                _ => Err(DeserializerError::MapAccess),
            }
        } else {
            Err(DeserializerError::MapAccess)
        }
    }

    /// Puts the access back after a call that returned `result`, or stores the error that
    /// the call returned, which makes the status a failure.
    pub fn resume<X>(&mut self, access: A, result: Result<X, E>) -> (r: DeserializerResult<X>)
        ensures
            r == status_of(result),
            result is Ok ==> *final(self) == Self::MapAccess(access),
            result matches Err(e) ==> *final(self) == Self::Failed(e),
    {
        match result {
            Ok(x) => {
                *self = InplaceMapAccess::MapAccess(access);
                Ok(x)
            },
            Err(e) => {
                *self = InplaceMapAccess::Failed(e);
                Err(DeserializerError::Error)
            },
        }
    }

    /// The ready access, for a query that does not consume it.
    pub fn access(&self) -> (r: Option<&A>)
        ensures
            r == (match *self {
                InplaceMapAccess::MapAccess(a) => Some(&a),
                _ => None,
            }),
    {
        match self {
            InplaceMapAccess::MapAccess(a) => Some(a),
            _ => None,
        }
    }

    /// Takes the bridge apart: the error it failed with, if it failed.
    pub fn failure(self) -> (r: Option<E>)
        ensures
            r == (match self {
                InplaceMapAccess::Failed(e) => Some(e),
                _ => None,
            }),
    {
        match self {
            InplaceMapAccess::Failed(e) => Some(e),
            _ => None,
        }
    }

    /// Takes the bridge apart once the facade call made with it returned `result`: the error
    /// the bridge kept, if it failed; otherwise what the call returned.
    pub fn settle<X>(self, result: Result<(), X>) -> (r: Ending<E, X>)
        ensures
            r == ending(
                match self {
                    InplaceMapAccess::Failed(e) => Some(e),
                    _ => None,
                },
                result,
            ),
    {
        settle(self.failure(), result)
    }
}

/// The single-use adapter around a concrete access `A` to an enum, which names the variant
/// and then turns into an access `Var` to the variant's content; both fail with `E`.
#[derive(Debug)]
pub enum InplaceEnumAccess<A, Var, E> {
    /// Nothing is held: the access was taken out for a call, or was used up.
    Empty,
    /// The access failed with this error.
    Failed(E),
    /// The access is ready to name the variant.
    EnumAccess(A),
    /// The variant is named, and its content is ready to be read.
    VariantAccess(Var),
}

impl<A, Var, E> InplaceEnumAccess<A, Var, E> {
    /// What a call that names the variant gets from this stage.
    pub open spec fn taken_enum_access(&self) -> Result<A, DeserializerError> {
        match *self {
            InplaceEnumAccess::EnumAccess(a) => Ok(a),
            _ => Err(DeserializerError::EnumAccess),
        }
    }

    /// What a call that reads the variant's content gets from this stage.
    pub open spec fn taken_variant_access(&self) -> Result<Var, DeserializerError> {
        match *self {
            InplaceEnumAccess::VariantAccess(v) => Ok(v),
            _ => Err(DeserializerError::VariantAccess),
        }
    }

    /// A bridge around an access that is ready to name the variant.
    pub fn new(access: A) -> (r: Self)
        ensures
            r == Self::EnumAccess(access),
    {
        InplaceEnumAccess::EnumAccess(access)
    }

    /// Takes the access out to name the variant. Where it is
    /// not ready, the call is refused and the bridge keeps what it held.
    pub fn take_enum_access(&mut self) -> (r: Result<A, DeserializerError>)
        ensures
            r == old(self).taken_enum_access(),
            r is Ok ==> *final(self) is Empty,
            r is Err ==> *final(self) == *old(self),
    {
        if let InplaceEnumAccess::EnumAccess(_) = self {
            let mut stage = Self::Empty;
            std::mem::swap(self, &mut stage);
            match stage {
                InplaceEnumAccess::EnumAccess(a) => Ok(a),
                _ => Err(DeserializerError::EnumAccess),
            }
        } else {
            Err(DeserializerError::EnumAccess)
        }
    }

    /// Stores what naming the variant returned: the access to its content, or the error,
    /// which makes the status a failure.
    pub fn enter_variant(&mut self, result: Result<Var, E>) -> (r: DeserializerResult<()>)
        ensures
            r == (if result is Ok {
                Ok(())
            } else {
                Err(DeserializerError::Error)
            }),
            *final(self) == (match result {
                Ok(v) => Self::VariantAccess(v),
                Err(e) => Self::Failed(e),
            }),
    {
        match result {
            Ok(v) => {
                *self = InplaceEnumAccess::VariantAccess(v);
                Ok(())
            },
            Err(e) => {
                *self = InplaceEnumAccess::Failed(e);
                Err(DeserializerError::Error)
            },
        }
    }

    /// Takes the access to the variant's content out for a call. Where it is not
    /// ready, the call is refused and the bridge keeps what it held.
    pub fn take_variant_access(&mut self) -> (r: Result<Var, DeserializerError>)
        ensures
            r == old(self).taken_variant_access(),
            r is Ok ==> *final(self) is Empty,
            r is Err ==> *final(self) == *old(self),
    {
        if let InplaceEnumAccess::VariantAccess(_) = self {
            let mut stage = Self::Empty;
            std::mem::swap(self, &mut stage);
            match stage {
                InplaceEnumAccess::VariantAccess(v) => Ok(v),
                _ => Err(DeserializerError::VariantAccess),
            }
        } else {
            Err(DeserializerError::VariantAccess)
        }
    }

    /// Records what reading the variant's content returned: on failure the error is stored
    /// and the status is a failure; on success the bridge is left as it was.
    pub fn record(&mut self, result: Result<(), E>) -> (r: DeserializerResult<()>)
        ensures
            r == status_of(result),
            result is Ok ==> *final(self) == *old(self),
            result matches Err(e) ==> *final(self) == Self::Failed(e),
    {
        match result {
            Ok(()) => Ok(()),
            Err(e) => {
                *self = InplaceEnumAccess::Failed(e);
                Err(DeserializerError::Error)
            },
        }
    }

    /// Takes the bridge apart: the error it failed with, if it failed.
    pub fn failure(self) -> (r: Option<E>)
        ensures
            r == (match self {
                InplaceEnumAccess::Failed(e) => Some(e),
                _ => None,
            }),
    {
        match self {
            InplaceEnumAccess::Failed(e) => Some(e),
            _ => None,
        }
    }

    /// Takes the bridge apart once the facade call made with it returned `result`: the error
    /// the bridge kept, if it failed; otherwise what the call returned.
    pub fn settle<X>(self, result: Result<(), X>) -> (r: Ending<E, X>)
        ensures
            r == ending(
                match self {
                    InplaceEnumAccess::Failed(e) => Some(e),
                    _ => None,
                },
                result,
            ),
    {
        settle(self.failure(), result)
    }
}

/// A deserializer bridge that has been used or has failed never hands its deserializer out
/// again: every call is refused with the deserializer's wrong-stage status.
pub proof fn lemma_used_deserializer_refuses<D, E>(b: InplaceDeserializer<D, E>)
    requires
        b is Empty || b is Failed,
    ensures
        b.taken_deserializer() == Err::<D, _>(DeserializerError::Deserializer),
{
}

/// A visitor bridge that has produced its value, or was used up, refuses every further
/// callback with the visitor's wrong-stage status, and a completed one keeps its value for the
/// generic caller.
pub proof fn lemma_finished_visitor_refuses<V, Val>(b: InplaceVisitor<V, Val>)
    requires
        b is Empty || b is Value,
    ensures
        b.taken_visitor() == Err::<V, _>(
            DeserializeError::DeserializerError(DeserializerError::Visitor),
        ),
        b matches InplaceVisitor::Value(v) ==> forall|result: DeserializerResult<()>|
            b.concluded(result) == Ok::<Val, DeserializeError>(v),
{
}

/// A seed bridge that has decoded its value, or was used up, refuses every further call with
/// the seed's wrong-stage status.
pub proof fn lemma_finished_seed_refuses<T, Val>(b: InplaceDeserializeSeed<T, Val>)
    requires
        b is Empty || b is Value,
    ensures
        b.taken_seed() == Err::<T, _>(
            DeserializeError::DeserializerError(DeserializerError::DeserializeSeed),
        ),
{
}

/// A sequence access bridge that has failed refuses every further call with the sequence
/// access's wrong-stage status.
pub proof fn lemma_failed_seq_access_refuses<A, E>(b: InplaceSeqAccess<A, E>)
    requires
        b is Failed,
    ensures
        b.taken_access() == Err::<A, _>(DeserializerError::SeqAccess),
{
}

/// A map access bridge that has failed refuses every further call with the map access's
/// wrong-stage status.
pub proof fn lemma_failed_map_access_refuses<A, E>(b: InplaceMapAccess<A, E>)
    requires
        b is Failed,
    ensures
        b.taken_access() == Err::<A, _>(DeserializerError::MapAccess),
{
}

/// An enum access bridge that has failed, or was used up, refuses both to name a variant and
/// to read one, each with the wrong-stage status of its facade.
pub proof fn lemma_finished_enum_access_refuses<A, Var, E>(b: InplaceEnumAccess<A, Var, E>)
    requires
        b is Empty || b is Failed,
    ensures
        b.taken_enum_access() == Err::<A, _>(DeserializerError::EnumAccess),
        b.taken_variant_access() == Err::<Var, _>(DeserializerError::VariantAccess),
{
}

} // verus!
