use vstd::prelude::*;

use crate::text::TextSpan;
use crate::value::ObjectKind;

verus! {

/// What a semantic error was, with the data a renderer needs to phrase it.
#[derive(Debug, PartialEq)]
pub enum DiagnosticKind {
    UndefinedName { name: String },
    VariableAlreadyDeclared { name: String },
    CannotAssign { name: String },
    CannotConvert { from_type: ObjectKind, to_type: ObjectKind },
    UndefinedUnaryOperator { operator: String, operand_type: ObjectKind },
    UndefinedBinaryOperator { operator: String, left_type: ObjectKind, right_type: ObjectKind },
}

/// One recorded semantic error: where in the source it happened and what
/// it was.  Rendering a message out of it is the driver's concern.
#[derive(Debug, PartialEq)]
pub struct Diagnostic {
    pub span: TextSpan,
    pub kind: DiagnosticKind,
}

/// The ordered collection of semantic errors of one binding pass.
#[derive(Debug)]
pub struct DiagnosticBag {
    pub diagnostics: Vec<Diagnostic>,
}

impl DiagnosticBag {
    pub fn new() -> (r: DiagnosticBag)
        ensures
            r.diagnostics@ == Seq::<Diagnostic>::empty(),
    {
        DiagnosticBag { diagnostics: Vec::new() }
    }

    pub fn report_undefined_name(&mut self, span: TextSpan, name: &String)
        ensures
            final(self).diagnostics@ == old(self).diagnostics@.push(
                (Diagnostic { span, kind: DiagnosticKind::UndefinedName { name: *name } }),
            ),
    {
        self.diagnostics.push(Diagnostic {
            span,
            kind: DiagnosticKind::UndefinedName { name: name.clone() },
        });
    }

    pub fn report_variable_already_declared(&mut self, span: TextSpan, name: &String)
        ensures
            final(self).diagnostics@ == old(self).diagnostics@.push(
                (Diagnostic {
                    span,
                    kind: DiagnosticKind::VariableAlreadyDeclared { name: *name },
                }),
            ),
    {
        self.diagnostics.push(Diagnostic {
            span,
            kind: DiagnosticKind::VariableAlreadyDeclared { name: name.clone() },
        });
    }

    pub fn report_cannot_assign(&mut self, span: TextSpan, name: &String)
        ensures
            final(self).diagnostics@ == old(self).diagnostics@.push(
                (Diagnostic { span, kind: DiagnosticKind::CannotAssign { name: *name } }),
            ),
    {
        self.diagnostics.push(Diagnostic {
            span,
            kind: DiagnosticKind::CannotAssign { name: name.clone() },
        });
    }

    pub fn report_cannot_convert(&mut self, span: TextSpan, from_type: ObjectKind, to_type: ObjectKind)
        ensures
            final(self).diagnostics@ == old(self).diagnostics@.push(
                (Diagnostic { span, kind: DiagnosticKind::CannotConvert { from_type, to_type } }),
            ),
    {
        self.diagnostics.push(Diagnostic {
            span,
            kind: DiagnosticKind::CannotConvert { from_type, to_type },
        });
    }

    pub fn report_undefined_unary_operator(
        &mut self,
        span: TextSpan,
        operator: String,
        operand_type: ObjectKind,
    )
        ensures
            final(self).diagnostics@ == old(self).diagnostics@.push(
                (Diagnostic {
                    span,
                    kind: DiagnosticKind::UndefinedUnaryOperator { operator, operand_type },
                }),
            ),
    {
        self.diagnostics.push(Diagnostic {
            span,
            kind: DiagnosticKind::UndefinedUnaryOperator { operator, operand_type },
        });
    }

    pub fn report_undefined_binary_operator(
        &mut self,
        span: TextSpan,
        operator: String,
        left_type: ObjectKind,
        right_type: ObjectKind,
    )
        ensures
            final(self).diagnostics@ == old(self).diagnostics@.push(
                (Diagnostic {
                    span,
                    kind: DiagnosticKind::UndefinedBinaryOperator {
                        operator,
                        left_type,
                        right_type,
                    },
                }),
            ),
    {
        self.diagnostics.push(Diagnostic {
            span,
            kind: DiagnosticKind::UndefinedBinaryOperator { operator, left_type, right_type },
        });
    }
}

} // verus!
