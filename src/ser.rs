//! The producing bridge.
//!
//! [`InplaceSerializer`] holds one concrete serde serializer, or what it turned into: the
//! composite serializer it opened, the value it completed with, or the error it failed with.
//! Each operation of the dynamic facade takes what the bridge holds, hands it to the concrete
//! codec, and stores the codec's result under a new tag. The facade then returns only a
//! payload-free [`SerializerError`] status, and the caller reads the result out of the bridge.
use vstd::prelude::*;

use crate::error::{SerializerError, SerializerResult};

verus! {

/// The single-use adapter around a concrete serializer.
///
/// The type parameters are those of the concrete codec: `S` the serializer, `O` and `E` what
/// it completes or fails with, and `Q`, `T`, `TS`, `TV`, `M`, `ST`, `SV` the composite
/// serializers that it opens for a sequence, a tuple, a tuple struct, a tuple variant, a map,
/// a struct and a struct variant. Exactly one stage is held at a time.
#[derive(Debug)]
pub enum InplaceSerializer<S, O, E, Q, T, TS, TV, M, ST, SV> {
    /// Nothing is held: the content was taken out for a call, or was given up.
    Empty,
    /// The codec completed with this value.
    Completed(O),
    /// The codec failed with this error.
    Failed(E),
    /// The serializer is ready for one value.
    Serializer(S),
    /// A sequence is open.
    SerializeSeq(Q),
    /// A tuple is open.
    SerializeTuple(T),
    /// A tuple struct is open.
    SerializeTupleStruct(TS),
    /// A tuple variant is open.
    SerializeTupleVariant(TV),
    /// A map is open.
    SerializeMap(M),
    /// A struct is open.
    SerializeStruct(ST),
    /// A struct variant is open.
    SerializeStructVariant(SV),
}

/// What a dynamic production ended with, once the bridge is taken apart.
#[derive(Debug)]
pub enum Outcome<O, E, X> {
    /// The codec completed with this value, and the producing call succeeded.
    Completed(O),
    /// The codec failed with this error.
    Failed(E),
    /// The producing call failed with this error, though the codec did not.
    Refused(X),
    /// The producing call claimed success, but the codec neither completed nor failed.
    Unfinished,
}

impl<S, O, E, Q, T, TS, TV, M, ST, SV> InplaceSerializer<S, O, E, Q, T, TS, TV, M, ST, SV> {
    /// The bridge has completed or failed: nothing in it can be called any more.
    pub open spec fn is_finished(&self) -> bool {
        self is Completed || self is Failed
    }

    /// What a call that needs the ready serializer gets from this stage.
    pub open spec fn taken_serializer(&self) -> Result<S, SerializerError> {
        match *self {
            Self::Serializer(s) => Ok(s),
            _ => Err(SerializerError::Serializer),
        }
    }

    /// What the bridge holds after a call has stored the codec's result: the completed
    /// value, or the error.
    pub open spec fn completed_with(result: Result<O, E>) -> Self {
        match result {
            Ok(o) => Self::Completed(o),
            Err(e) => Self::Failed(e),
        }
    }

    /// The status of a call whose codec operation returned `result`.
    pub open spec fn status_of<X>(result: Result<X, E>) -> SerializerResult<()> {
        match result {
            Ok(_) => Ok(()),
            Err(_) => Err(SerializerError::Error),
        }
    }

    /// Takes out whatever the bridge holds, leaving it empty.
    fn take_stage(&mut self) -> (r: Self)
        ensures
            r == *old(self),
            *final(self) is Empty,
    {
        let mut stage = Self::Empty;
        std::mem::swap(self, &mut stage);
        stage
    }

    /// A bridge around a serializer that is ready for one value.
    pub fn new(serializer: S) -> (r: Self)
        ensures
            r == Self::Serializer(serializer),
    {
        Self::Serializer(serializer)
    }

    /// Takes the ready serializer out for a call, leaving the bridge empty. Where it holds
    /// no ready serializer, the call is refused and the bridge keeps what it held, so a
    /// completed value or a stored error stays until it is taken out.
    pub fn take_serializer(&mut self) -> (r: Result<S, SerializerError>)
        ensures
            r == old(self).taken_serializer(),
            r is Ok ==> *final(self) is Empty,
            r is Err ==> *final(self) == *old(self),
    {
        if let Self::Serializer(_) = self {
            match self.take_stage() {
                Self::Serializer(s) => Ok(s),
                _ => Err(SerializerError::Serializer),
            }
        } else {
            Err(SerializerError::Serializer)
        }
    }

    /// Stores what a terminal operation of the serializer returned: the completed value, or
    /// the error, which makes the status a failure.
    pub fn complete(&mut self, result: Result<O, E>) -> (r: SerializerResult<()>)
        ensures
            *final(self) == Self::completed_with(result),
            r == Self::status_of(result),
    {
        match result {
            Ok(o) => {
                *self = Self::Completed(o);
                Ok(())
            },
            Err(e) => {
                *self = Self::Failed(e);
                Err(SerializerError::Error)
            },
        }
    }

    /// The ready serializer, for a query that does not consume it.
    pub fn serializer(&self) -> (r: Option<&S>)
        ensures
            r == (match *self {
                Self::Serializer(s) => Some(&s),
                _ => None,
            }),
    {
        match self {
            Self::Serializer(s) => Some(s),
            _ => None,
        }
    }

    /// What a production ends with, once the producing call returned `result`: the codec's
    /// error wherever the bridge failed; otherwise the producing call's own error wherever it
    /// returned one; otherwise the completed value.
    pub open spec fn finished<X>(self, result: Result<(), X>) -> Outcome<O, E, X> {
        match self {
            Self::Failed(e) => Outcome::Failed(e),
            _ => match result {
                Err(x) => Outcome::Refused(x),
                Ok(_) => match self {
                    Self::Completed(o) => Outcome::Completed(o),
                    _ => Outcome::Unfinished,
                },
            },
        }
    }

    /// Takes the bridge apart once the value has been produced: `result` is what the
    /// producing call returned. No error is dropped: a stored codec error comes first, then an
    /// error of the producing call, and a completed value is given only where both succeeded.
    pub fn finish<X>(self, result: Result<(), X>) -> (r: Outcome<O, E, X>)
        ensures
            r == self.finished(result),
    {
        match self {
            Self::Failed(e) => Outcome::Failed(e),
            _ => match result {
                Err(x) => Outcome::Refused(x),
                Ok(_) => match self {
                    Self::Completed(o) => Outcome::Completed(o),
                    _ => Outcome::Unfinished,
                },
            },
        }
    }

    /// What a call on the open sequence gets from this stage.
    pub open spec fn taken_seq(&self) -> Result<Q, SerializerError> {
        match *self {
            Self::SerializeSeq(c) => Ok(c),
            _ => Err(SerializerError::SerializeSeq),
        }
    }

    /// Stores what opening a sequence returned: the open sequence, or the error, which makes the
    /// status a failure.
    pub fn open_seq(&mut self, result: Result<Q, E>) -> (r: SerializerResult<()>)
        ensures
            *final(self) == (match result {
                Ok(c) => Self::SerializeSeq(c),
                Err(e) => Self::Failed(e),
            }),
            r == Self::status_of(result),
    {
        match result {
            Ok(c) => {
                *self = Self::SerializeSeq(c);
                Ok(())
            },
            Err(e) => {
                *self = Self::Failed(e);
                Err(SerializerError::Error)
            },
        }
    }

    /// Takes the open sequence out, to add to it or to end it. Where none is open, the call is
    /// refused and the bridge keeps what it held.
    pub fn take_seq(&mut self) -> (r: Result<Q, SerializerError>)
        ensures
            r == old(self).taken_seq(),
            r is Ok ==> *final(self) is Empty,
            r is Err ==> *final(self) == *old(self),
    {
        if let Self::SerializeSeq(_) = self {
            let stage = self.take_stage();
            match stage {
                Self::SerializeSeq(c) => Ok(c),
                _ => Err(SerializerError::SerializeSeq),
            }
        } else {
            Err(SerializerError::SerializeSeq)
        }
    }

    /// Puts the sequence back after an addition, or stores the error that the addition returned.
    pub fn resume_seq(&mut self, c: Q, result: Result<(), E>) -> (r: SerializerResult<()>)
        ensures
            *final(self) == (match result {
                Ok(_) => Self::SerializeSeq(c),
                Err(e) => Self::Failed(e),
            }),
            r == Self::status_of(result),
    {
        match result {
            Ok(_) => {
                *self = Self::SerializeSeq(c);
                Ok(())
            },
            Err(e) => {
                *self = Self::Failed(e);
                Err(SerializerError::Error)
            },
        }
    }


    /// What a call on the open tuple gets from this stage.
    pub open spec fn taken_tuple(&self) -> Result<T, SerializerError> {
        match *self {
            Self::SerializeTuple(c) => Ok(c),
            _ => Err(SerializerError::SerializeTuple),
        }
    }

    /// Stores what opening a tuple returned: the open tuple, or the error, which makes the
    /// status a failure.
    pub fn open_tuple(&mut self, result: Result<T, E>) -> (r: SerializerResult<()>)
        ensures
            *final(self) == (match result {
                Ok(c) => Self::SerializeTuple(c),
                Err(e) => Self::Failed(e),
            }),
            r == Self::status_of(result),
    {
        match result {
            Ok(c) => {
                *self = Self::SerializeTuple(c);
                Ok(())
            },
            Err(e) => {
                *self = Self::Failed(e);
                Err(SerializerError::Error)
            },
        }
    }

    /// Takes the open tuple out, to add to it or to end it. Where none is open, the call is
    /// refused and the bridge keeps what it held.
    pub fn take_tuple(&mut self) -> (r: Result<T, SerializerError>)
        ensures
            r == old(self).taken_tuple(),
            r is Ok ==> *final(self) is Empty,
            r is Err ==> *final(self) == *old(self),
    {
        if let Self::SerializeTuple(_) = self {
            let stage = self.take_stage();
            match stage {
                Self::SerializeTuple(c) => Ok(c),
                _ => Err(SerializerError::SerializeTuple),
            }
        } else {
            Err(SerializerError::SerializeTuple)
        }
    }

    /// Puts the tuple back after an addition, or stores the error that the addition returned.
    pub fn resume_tuple(&mut self, c: T, result: Result<(), E>) -> (r: SerializerResult<()>)
        ensures
            *final(self) == (match result {
                Ok(_) => Self::SerializeTuple(c),
                Err(e) => Self::Failed(e),
            }),
            r == Self::status_of(result),
    {
        match result {
            Ok(_) => {
                *self = Self::SerializeTuple(c);
                Ok(())
            },
            Err(e) => {
                *self = Self::Failed(e);
                Err(SerializerError::Error)
            },
        }
    }


    /// What a call on the open tuple struct gets from this stage.
    pub open spec fn taken_tuple_struct(&self) -> Result<TS, SerializerError> {
        match *self {
            Self::SerializeTupleStruct(c) => Ok(c),
            _ => Err(SerializerError::SerializeTupleStruct),
        }
    }

    /// Stores what opening a tuple struct returned: the open tuple struct, or the error, which makes the
    /// status a failure.
    pub fn open_tuple_struct(&mut self, result: Result<TS, E>) -> (r: SerializerResult<()>)
        ensures
            *final(self) == (match result {
                Ok(c) => Self::SerializeTupleStruct(c),
                Err(e) => Self::Failed(e),
            }),
            r == Self::status_of(result),
    {
        match result {
            Ok(c) => {
                *self = Self::SerializeTupleStruct(c);
                Ok(())
            },
            Err(e) => {
                *self = Self::Failed(e);
                Err(SerializerError::Error)
            },
        }
    }

    /// Takes the open tuple struct out, to add to it or to end it. Where none is open, the call is
    /// refused and the bridge keeps what it held.
    pub fn take_tuple_struct(&mut self) -> (r: Result<TS, SerializerError>)
        ensures
            r == old(self).taken_tuple_struct(),
            r is Ok ==> *final(self) is Empty,
            r is Err ==> *final(self) == *old(self),
    {
        if let Self::SerializeTupleStruct(_) = self {
            let stage = self.take_stage();
            match stage {
                Self::SerializeTupleStruct(c) => Ok(c),
                _ => Err(SerializerError::SerializeTupleStruct),
            }
        } else {
            Err(SerializerError::SerializeTupleStruct)
        }
    }

    /// Puts the tuple struct back after an addition, or stores the error that the addition returned.
    pub fn resume_tuple_struct(&mut self, c: TS, result: Result<(), E>) -> (r: SerializerResult<()>)
        ensures
            *final(self) == (match result {
                Ok(_) => Self::SerializeTupleStruct(c),
                Err(e) => Self::Failed(e),
            }),
            r == Self::status_of(result),
    {
        match result {
            Ok(_) => {
                *self = Self::SerializeTupleStruct(c);
                Ok(())
            },
            Err(e) => {
                *self = Self::Failed(e);
                Err(SerializerError::Error)
            },
        }
    }


    /// What a call on the open tuple variant gets from this stage.
    pub open spec fn taken_tuple_variant(&self) -> Result<TV, SerializerError> {
        match *self {
            Self::SerializeTupleVariant(c) => Ok(c),
            _ => Err(SerializerError::SerializeTupleVariant),
        }
    }

    /// Stores what opening a tuple variant returned: the open tuple variant, or the error, which makes the
    /// status a failure.
    pub fn open_tuple_variant(&mut self, result: Result<TV, E>) -> (r: SerializerResult<()>)
        ensures
            *final(self) == (match result {
                Ok(c) => Self::SerializeTupleVariant(c),
                Err(e) => Self::Failed(e),
            }),
            r == Self::status_of(result),
    {
        match result {
            Ok(c) => {
                *self = Self::SerializeTupleVariant(c);
                Ok(())
            },
            Err(e) => {
                *self = Self::Failed(e);
                Err(SerializerError::Error)
            },
        }
    }

    /// Takes the open tuple variant out, to add to it or to end it. Where none is open, the call is
    /// refused and the bridge keeps what it held.
    pub fn take_tuple_variant(&mut self) -> (r: Result<TV, SerializerError>)
        ensures
            r == old(self).taken_tuple_variant(),
            r is Ok ==> *final(self) is Empty,
            r is Err ==> *final(self) == *old(self),
    {
        if let Self::SerializeTupleVariant(_) = self {
            let stage = self.take_stage();
            match stage {
                Self::SerializeTupleVariant(c) => Ok(c),
                _ => Err(SerializerError::SerializeTupleVariant),
            }
        } else {
            Err(SerializerError::SerializeTupleVariant)
        }
    }

    /// Puts the tuple variant back after an addition, or stores the error that the addition returned.
    pub fn resume_tuple_variant(&mut self, c: TV, result: Result<(), E>) -> (r: SerializerResult<()>)
        ensures
            *final(self) == (match result {
                Ok(_) => Self::SerializeTupleVariant(c),
                Err(e) => Self::Failed(e),
            }),
            r == Self::status_of(result),
    {
        match result {
            Ok(_) => {
                *self = Self::SerializeTupleVariant(c);
                Ok(())
            },
            Err(e) => {
                *self = Self::Failed(e);
                Err(SerializerError::Error)
            },
        }
    }


    /// What a call on the open map gets from this stage.
    pub open spec fn taken_map(&self) -> Result<M, SerializerError> {
        match *self {
            Self::SerializeMap(c) => Ok(c),
            _ => Err(SerializerError::SerializeMap),
        }
    }

    /// Stores what opening a map returned: the open map, or the error, which makes the
    /// status a failure.
    pub fn open_map(&mut self, result: Result<M, E>) -> (r: SerializerResult<()>)
        ensures
            *final(self) == (match result {
                Ok(c) => Self::SerializeMap(c),
                Err(e) => Self::Failed(e),
            }),
            r == Self::status_of(result),
    {
        match result {
            Ok(c) => {
                *self = Self::SerializeMap(c);
                Ok(())
            },
            Err(e) => {
                *self = Self::Failed(e);
                Err(SerializerError::Error)
            },
        }
    }

    /// Takes the open map out, to add to it or to end it. Where none is open, the call is
    /// refused and the bridge keeps what it held.
    pub fn take_map(&mut self) -> (r: Result<M, SerializerError>)
        ensures
            r == old(self).taken_map(),
            r is Ok ==> *final(self) is Empty,
            r is Err ==> *final(self) == *old(self),
    {
        if let Self::SerializeMap(_) = self {
            let stage = self.take_stage();
            match stage {
                Self::SerializeMap(c) => Ok(c),
                _ => Err(SerializerError::SerializeMap),
            }
        } else {
            Err(SerializerError::SerializeMap)
        }
    }

    /// Puts the map back after an addition, or stores the error that the addition returned.
    pub fn resume_map(&mut self, c: M, result: Result<(), E>) -> (r: SerializerResult<()>)
        ensures
            *final(self) == (match result {
                Ok(_) => Self::SerializeMap(c),
                Err(e) => Self::Failed(e),
            }),
            r == Self::status_of(result),
    {
        match result {
            Ok(_) => {
                *self = Self::SerializeMap(c);
                Ok(())
            },
            Err(e) => {
                *self = Self::Failed(e);
                Err(SerializerError::Error)
            },
        }
    }


    /// What a call on the open struct gets from this stage.
    pub open spec fn taken_struct(&self) -> Result<ST, SerializerError> {
        match *self {
            Self::SerializeStruct(c) => Ok(c),
            _ => Err(SerializerError::SerializeStruct),
        }
    }

    /// Stores what opening a struct returned: the open struct, or the error, which makes the
    /// status a failure.
    pub fn open_struct(&mut self, result: Result<ST, E>) -> (r: SerializerResult<()>)
        ensures
            *final(self) == (match result {
                Ok(c) => Self::SerializeStruct(c),
                Err(e) => Self::Failed(e),
            }),
            r == Self::status_of(result),
    {
        match result {
            Ok(c) => {
                *self = Self::SerializeStruct(c);
                Ok(())
            },
            Err(e) => {
                *self = Self::Failed(e);
                Err(SerializerError::Error)
            },
        }
    }

    /// Takes the open struct out, to add to it or to end it. Where none is open, the call is
    /// refused and the bridge keeps what it held.
    pub fn take_struct(&mut self) -> (r: Result<ST, SerializerError>)
        ensures
            r == old(self).taken_struct(),
            r is Ok ==> *final(self) is Empty,
            r is Err ==> *final(self) == *old(self),
    {
        if let Self::SerializeStruct(_) = self {
            let stage = self.take_stage();
            match stage {
                Self::SerializeStruct(c) => Ok(c),
                _ => Err(SerializerError::SerializeStruct),
            }
        } else {
            Err(SerializerError::SerializeStruct)
        }
    }

    /// Puts the struct back after an addition, or stores the error that the addition returned.
    pub fn resume_struct(&mut self, c: ST, result: Result<(), E>) -> (r: SerializerResult<()>)
        ensures
            *final(self) == (match result {
                Ok(_) => Self::SerializeStruct(c),
                Err(e) => Self::Failed(e),
            }),
            r == Self::status_of(result),
    {
        match result {
            Ok(_) => {
                *self = Self::SerializeStruct(c);
                Ok(())
            },
            Err(e) => {
                *self = Self::Failed(e);
                Err(SerializerError::Error)
            },
        }
    }


    /// What a call on the open struct variant gets from this stage.
    pub open spec fn taken_struct_variant(&self) -> Result<SV, SerializerError> {
        match *self {
            Self::SerializeStructVariant(c) => Ok(c),
            _ => Err(SerializerError::SerializeStructVariant),
        }
    }

    /// Stores what opening a struct variant returned: the open struct variant, or the error, which makes the
    /// status a failure.
    pub fn open_struct_variant(&mut self, result: Result<SV, E>) -> (r: SerializerResult<()>)
        ensures
            *final(self) == (match result {
                Ok(c) => Self::SerializeStructVariant(c),
                Err(e) => Self::Failed(e),
            }),
            r == Self::status_of(result),
    {
        match result {
            Ok(c) => {
                *self = Self::SerializeStructVariant(c);
                Ok(())
            },
            Err(e) => {
                *self = Self::Failed(e);
                Err(SerializerError::Error)
            },
        }
    }

    /// Takes the open struct variant out, to add to it or to end it. Where none is open, the call is
    /// refused and the bridge keeps what it held.
    pub fn take_struct_variant(&mut self) -> (r: Result<SV, SerializerError>)
        ensures
            r == old(self).taken_struct_variant(),
            r is Ok ==> *final(self) is Empty,
            r is Err ==> *final(self) == *old(self),
    {
        if let Self::SerializeStructVariant(_) = self {
            let stage = self.take_stage();
            match stage {
                Self::SerializeStructVariant(c) => Ok(c),
                _ => Err(SerializerError::SerializeStructVariant),
            }
        } else {
            Err(SerializerError::SerializeStructVariant)
        }
    }

    /// Puts the struct variant back after an addition, or stores the error that the addition returned.
    pub fn resume_struct_variant(&mut self, c: SV, result: Result<(), E>) -> (r: SerializerResult<()>)
        ensures
            *final(self) == (match result {
                Ok(_) => Self::SerializeStructVariant(c),
                Err(e) => Self::Failed(e),
            }),
            r == Self::status_of(result),
    {
        match result {
            Ok(_) => {
                *self = Self::SerializeStructVariant(c);
                Ok(())
            },
            Err(e) => {
                *self = Self::Failed(e);
                Err(SerializerError::Error)
            },
        }
    }

}

/// Once a bridge has completed or failed, it hands nothing out any more: every facade call
/// that needs the ready serializer or an open composite is refused with the wrong-stage
/// status of its facade, so the concrete codec is never called again.
pub proof fn lemma_finished_serializer_refuses<S, O, E, Q, T, TS, TV, M, ST, SV>(
    b: InplaceSerializer<S, O, E, Q, T, TS, TV, M, ST, SV>,
)
    requires
        b.is_finished(),
    ensures
        b.taken_serializer() == Err::<S, _>(SerializerError::Serializer),
        b.taken_seq() == Err::<Q, _>(SerializerError::SerializeSeq),
        b.taken_tuple() == Err::<T, _>(SerializerError::SerializeTuple),
        b.taken_tuple_struct() == Err::<TS, _>(SerializerError::SerializeTupleStruct),
        b.taken_tuple_variant() == Err::<TV, _>(SerializerError::SerializeTupleVariant),
        b.taken_map() == Err::<M, _>(SerializerError::SerializeMap),
        b.taken_struct() == Err::<ST, _>(SerializerError::SerializeStruct),
        b.taken_struct_variant() == Err::<SV, _>(SerializerError::SerializeStructVariant),
{
}

} // verus!
