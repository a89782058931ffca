use vstd::prelude::*;

verus! {

/// The primitive kinds of value the language knows.
#[derive(Clone, Copy, Debug, PartialEq, Eq, Structural)]
pub enum ObjectKind {
    Number,
    Boolean,
}

/// A value as it appears in a literal: a number or a truth value.
#[derive(Clone, Copy, Debug, PartialEq, Eq, Structural)]
pub enum Object {
    Number(i64),
    Boolean(bool),
}

impl Object {
    /// The kind of this value.
    pub open spec fn kind_spec(&self) -> ObjectKind {
        match self {
            Object::Number(_) => ObjectKind::Number,
            Object::Boolean(_) => ObjectKind::Boolean,
        }
    }

    #[verifier::when_used_as_spec(kind_spec)]
    pub fn kind(&self) -> (r: ObjectKind)
        ensures
            r == self.kind_spec(),
    {
        match self {
            Object::Number(_) => ObjectKind::Number,
            Object::Boolean(_) => ObjectKind::Boolean,
        }
    }
}

} // verus!
