//! Typed values, the per-invocation frame, and the control state an
//! instruction produces.
//!
//! A frame holds a fixed-length array of local-variable slots and a
//! bounded operand stack.  Long and double values count as two words in
//! stack-depth accounting but are stored as one slot; the invariant
//! [`StackFrame::wf`] keeps the word depth within `max_stack` at every
//! step.

use vstd::prelude::*;

use crate::exec::error::Error;
use crate::parse::attribute::Code;
use crate::parse::method::{first_code, Method};

verus! {

/// A typed value of the machine: one local slot or operand-stack entry.
/// `Unset` is an uninitialized local; `Float` and `Double` carry raw
/// IEEE-754 bit patterns; a `Reference` carries an opaque handle.
#[derive(Debug, Copy, Clone, PartialEq, Eq, Structural)]
pub enum Value {
    Unset,
    Null,
    Int(i32),
    Long(i64),
    Float(u32),
    Double(u64),
    Reference(u16),
}

/// How many stack words a value occupies: two for `Long` and `Double`,
/// one for everything else.
pub open spec fn width(v: Value) -> int {
    match v {
        Value::Long(..) => 2,
        Value::Double(..) => 2,
        _ => 1,
    }
}

/// The word depth of an operand stack: the sum of the widths of its
/// values.
pub open spec fn stack_words(s: Seq<Value>) -> int
    decreases s.len(),
{
    if s.len() == 0 {
        0
    } else {
        stack_words(s.drop_last()) + width(s.last())
    }
}

/// The word depth of a stack is never negative.
pub broadcast proof fn lemma_stack_words_nonneg(s: Seq<Value>)
    ensures
        #[trigger] stack_words(s) >= 0,
    decreases s.len(),
{
    if s.len() > 0 {
        lemma_stack_words_nonneg(s.drop_last());
    }
}

/// Appending a value adds its width to the word depth of a stack.
pub broadcast proof fn lemma_stack_words_push(s: Seq<Value>, v: Value)
    ensures
        #[trigger] stack_words(s.push(v)) == stack_words(s) + width(v),
{
    assert(s.push(v).drop_last() =~= s);
}

/// Removing the top value takes its width off the word depth.
pub broadcast proof fn lemma_stack_words_drop(s: Seq<Value>)
    requires
        s.len() > 0,
    ensures
        stack_words(s) == #[trigger] stack_words(s.drop_last()) + width(s.last()),
{
}

/// The width of a value in words.
pub fn value_width(v: &Value) -> (r: usize)
    ensures
        r == width(*v),
{
    match v {
        Value::Long(..) => 2,
        Value::Double(..) => 2,
        _ => 1,
    }
}

/// The locals array at method entry: the arguments in their slots,
/// every remaining slot uninitialized.
pub open spec fn locals_init(args: Seq<Value>, n: int) -> Seq<Value> {
    Seq::new(n as nat, |i: int| if i < args.len() { args[i] } else { Value::Unset })
}

/// The control state an executed instruction produces.
#[derive(Debug, Clone)]
pub enum State {
    /// Advance the program counter past the instruction.
    Continue,
    /// Add a signed offset, measured from the start of the branching
    /// instruction, to the program counter.
    GotoRelative(i32),
    /// Set the program counter to an absolute address.
    GotoAbsolute(usize),
    /// Terminate the frame with an optional result.
    Return(Option<Value>),
}

/// A per-invocation frame: a fixed-length local-variable array and a
/// bounded, typed operand stack.
#[derive(Debug)]
pub struct StackFrame {
    pub local_variables: Vec<Value>,
    pub stack: Vec<Value>,
    /// The operand-stack bound, in words.
    pub max_stack: usize,
    /// The current word depth of `stack`; kept equal to
    /// `stack_words(stack@)` by every operation.
    pub words: usize,
}

impl StackFrame {
    /// The frame's invariant: the word counter is accurate and the
    /// stack depth never exceeds `max_stack`.
    pub open spec fn wf(&self) -> bool {
        &&& self.words == stack_words(self.stack@)
        &&& self.words <= self.max_stack
    }

    /// A frame with `vars` uninitialized locals and an empty stack
    /// bounded by `size` words.
    pub fn create(vars: usize, size: usize) -> (r: StackFrame)
        ensures
            r.wf(),
            r.local_variables@ =~= locals_init(Seq::empty(), vars as int),
            r.stack@ =~= Seq::<Value>::empty(),
            r.max_stack == size,
    {
        let mut local_variables: Vec<Value> = Vec::new();
        let mut i: usize = 0;
        while i < vars
            invariant
                i <= vars,
                local_variables@ =~= locals_init(Seq::empty(), i as int),
            decreases vars - i,
        {
            local_variables.push(Value::Unset);
            i = i + 1;
            proof {
                assert(local_variables@ =~= locals_init(Seq::empty(), i as int));
            }
        }
        StackFrame { local_variables, stack: Vec::new(), max_stack: size, words: 0 }
    }

    /// The frame for invoking `method`: locals sized by the method's
    /// `Code` attribute, the arguments copied into the first slots.
    pub fn for_method(method: &Method, args: Vec<Value>) -> (r: StackFrame)
        requires
            first_code(method@.attributes) is Some,
            args@.len() <= first_code(method@.attributes)->Some_0.max_locals,
        ensures
            r.wf(),
            r.local_variables@ =~= locals_init(
                args@,
                first_code(method@.attributes)->Some_0.max_locals as int,
            ),
            r.stack@ =~= Seq::<Value>::empty(),
            r.max_stack == first_code(method@.attributes)->Some_0.max_stack,
    {
        let code = match method.get_code() {
            Some(code) => code,
            None => vstd::pervasive::unreached(),
        };
        StackFrame::for_code(code, args)
    }

    /// The frame for running `code`: locals sized by its limits, the
    /// arguments copied into the first slots.
    pub fn for_code(code: &Code, args: Vec<Value>) -> (r: StackFrame)
        requires
            args@.len() <= code.max_locals,
        ensures
            r.wf(),
            r.local_variables@ =~= locals_init(args@, code.max_locals as int),
            r.stack@ =~= Seq::<Value>::empty(),
            r.max_stack == code.max_stack,
    {
        let max_locals = code.max_locals as usize;
        let mut local_variables: Vec<Value> = Vec::new();
        let mut i: usize = 0;
        while i < args.len()
            invariant
                i <= args@.len() <= max_locals,
                local_variables@ =~= args@.subrange(0, i as int),
            decreases args@.len() - i,
        {
            local_variables.push(args[i]);
            i = i + 1;
            proof {
                assert(local_variables@ =~= args@.subrange(0, i as int));
            }
        }
        while local_variables.len() < max_locals
            invariant
                args@.len() <= local_variables@.len() <= max_locals,
                local_variables@ =~= locals_init(args@, local_variables@.len() as int),
            decreases max_locals - local_variables@.len(),
        {
            local_variables.push(Value::Unset);
            proof {
                assert(local_variables@ =~= locals_init(
                    args@,
                    local_variables@.len() as int,
                ));
            }
        }
        StackFrame {
            local_variables,
            stack: Vec::new(),
            max_stack: code.max_stack as usize,
            words: 0,
        }
    }

    /// The local at `index`, if the index is within the frame.
    pub fn get_variable(&self, index: usize) -> (r: Option<&Value>)
        ensures
            match r {
                Some(v) => index < self.local_variables@.len() && *v
                    == self.local_variables@[index as int],
                None => index >= self.local_variables@.len(),
            },
    {
        if index < self.local_variables.len() {
            Some(&self.local_variables[index])
        } else {
            None
        }
    }

    /// Stores `var` in the local at `index`.  The locals array never
    /// grows: an index past its end is an error.
    pub fn set_variable(&mut self, index: usize, var: Value) -> (r: Result<(), Error>)
        ensures
            final(self).stack@ == old(self).stack@,
            final(self).max_stack == old(self).max_stack,
            final(self).words == old(self).words,
            final(self).local_variables@.len() == old(self).local_variables@.len(),
            match r {
                Ok(()) => index < old(self).local_variables@.len() && final(self).local_variables@
                    =~= old(self).local_variables@.update(index as int, var),
                Err(e) => {
                    &&& index >= old(self).local_variables@.len()
                    &&& final(self).local_variables@ == old(self).local_variables@
                    &&& e@ == crate::exec::error::ErrorV::VariableOutOfScope
                },
            },
    {
        if index < self.local_variables.len() {
            self.local_variables.set(index, var);
            Ok(())
        } else {
            Err(Error::VariableOutOfScope)
        }
    }

    /// Pops the top of the operand stack.
    pub fn pop(&mut self) -> (r: Option<Value>)
        requires
            old(self).wf(),
        ensures
            final(self).wf(),
            final(self).local_variables@ == old(self).local_variables@,
            final(self).max_stack == old(self).max_stack,
            match r {
                Some(v) => {
                    &&& old(self).stack@.len() > 0
                    &&& v == old(self).stack@.last()
                    &&& final(self).stack@ =~= old(self).stack@.drop_last()
                },
                None => {
                    &&& old(self).stack@.len() == 0
                    &&& final(self).stack@ == old(self).stack@
                },
            },
    {
        broadcast use lemma_stack_words_nonneg;

        match self.stack.pop() {
            Some(v) => {
                let w = value_width(&v);
                proof {
                    assert(stack_words(old(self).stack@) == stack_words(
                        old(self).stack@.drop_last(),
                    ) + width(old(self).stack@.last()));
                    assert(self.stack@ =~= old(self).stack@.drop_last());
                }
                self.words = self.words - w;
                Some(v)
            },
            None => None,
        }
    }

    /// Pushes a value onto the operand stack, unless doing so would
    /// take the word depth past `max_stack`.
    pub fn push(&mut self, value: Value) -> (r: Result<(), Error>)
        requires
            old(self).wf(),
        ensures
            final(self).wf(),
            final(self).local_variables@ == old(self).local_variables@,
            final(self).max_stack == old(self).max_stack,
            match r {
                Ok(()) => {
                    &&& stack_words(old(self).stack@) + width(value) <= old(self).max_stack
                    &&& final(self).stack@ =~= old(self).stack@.push(value)
                },
                Err(e) => {
                    &&& stack_words(old(self).stack@) + width(value) > old(self).max_stack
                    &&& final(self).stack@ == old(self).stack@
                    &&& e@ == crate::exec::error::ErrorV::GenericError(
                        "operand stack overflow"@,
                    )
                },
            },
    {
        let w = value_width(&value);
        if self.max_stack - self.words >= w {
            self.stack.push(value);
            self.words = self.words + w;
            proof {
                assert(self.stack@.drop_last() =~= old(self).stack@);
            }
            Ok(())
        } else {
            Err(Error::GenericError(String::from_str("operand stack overflow")))
        }
    }
}

} // verus!
