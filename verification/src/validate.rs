//! The annotation validator: turns a field's raw annotation tokens into a
//! validated annotation state, or a diagnostic.
//!
//! The rules, applied to the tokens in order:
//! - no tokens at all means no annotation (`Absent`);
//! - a `key = "..."` assignment whose key is `each` yields `Each` with the
//!   assigned name;
//! - an `each = ...` assignment whose right-hand side is not a string
//!   literal is passed over, and the scan continues;
//! - every other shape (an assignment to a different key, a bare word, a
//!   list) is malformed and yields a diagnostic at that annotation.

use vstd::prelude::*;
use vstd::string::StringExecFns;
use crate::descriptor::{
    AnnotationShape, AnnotationState, AnnotationToken, Diagnostic, DiagnosticKind,
};

verus! {

/// The mathematical account of annotation validation: what the validator
/// returns for any token sequence.
pub open spec fn spec_validate(tokens: Seq<AnnotationToken>) -> Result<AnnotationState, Diagnostic>
    decreases tokens.len(),
{
    if tokens.len() == 0 {
        Ok(AnnotationState::Absent)
    } else {
        match tokens[0].shape {
            AnnotationShape::StrAssign { key, value } => if key@ == "each"@ {
                Ok(AnnotationState::Each { name: value })
            } else {
                Err(Diagnostic { kind: DiagnosticKind::MalformedAnnotation, loc: tokens[0].loc })
            },
            AnnotationShape::OtherAssign { key } => if key@ == "each"@ {
                spec_validate(tokens.drop_first())
            } else {
                Err(Diagnostic { kind: DiagnosticKind::MalformedAnnotation, loc: tokens[0].loc })
            },
            AnnotationShape::Bare { word } => Err(
                Diagnostic { kind: DiagnosticKind::MalformedAnnotation, loc: tokens[0].loc },
            ),
            AnnotationShape::List => Err(
                Diagnostic { kind: DiagnosticKind::MalformedAnnotation, loc: tokens[0].loc },
            ),
        }
    }
}

/// A field's annotations are malformed exactly when validation raises a
/// diagnostic on them.
pub open spec fn ann_malformed(tokens: Seq<AnnotationToken>) -> bool {
    spec_validate(tokens) is Err
}

/// Validate one field's raw annotation tokens.
pub fn validate_annotations(tokens: &Vec<AnnotationToken>) -> (r: Result<
    AnnotationState,
    Diagnostic,
>)
    ensures
        r == spec_validate(tokens@),
{
    let each_key = String::from_str("each");
    let mut i: usize = 0;
    proof {
        assert(tokens@.skip(0) =~= tokens@);
    }
    while i < tokens.len()
        invariant
            0 <= i <= tokens@.len(),
            each_key@ == "each"@,
            spec_validate(tokens@) == spec_validate(tokens@.skip(i as int)),
        decreases tokens@.len() - i,
    {
        proof {
            assert(tokens@.skip(i as int)[0] == tokens@[i as int]);
        }
        let t = &tokens[i];
        match &t.shape {
            AnnotationShape::StrAssign { key, value } => {
                if *key == each_key {
                    return Ok(AnnotationState::Each { name: value.clone() });
                } else {
                    return Err(
                        Diagnostic { kind: DiagnosticKind::MalformedAnnotation, loc: t.loc },
                    );
                }
            },
            AnnotationShape::OtherAssign { key } => {
                if !(*key == each_key) {
                    return Err(
                        Diagnostic { kind: DiagnosticKind::MalformedAnnotation, loc: t.loc },
                    );
                }
                proof {
                    assert(tokens@.skip(i as int).drop_first() =~= tokens@.skip(i + 1 as int));
                }
            },
            AnnotationShape::Bare { word } => {
                return Err(Diagnostic { kind: DiagnosticKind::MalformedAnnotation, loc: t.loc });
            },
            AnnotationShape::List => {
                return Err(Diagnostic { kind: DiagnosticKind::MalformedAnnotation, loc: t.loc });
            },
        }
        i = i + 1;
    }
    proof {
        assert(tokens@.skip(i as int) =~= Seq::<AnnotationToken>::empty());
    }
    Ok(AnnotationState::Absent)
}

} // verus!
