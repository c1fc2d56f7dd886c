use crate::span::Span;
use vstd::prelude::*;

verus! {

/// What type checking reports. Types are named as `pretty_print_ty` writes them.
#[derive(Clone, Debug, PartialEq)]
pub enum TypeCheckerError {
    CyclicTypeDefinition { span: Span, name: String },
    GenericArgKindMismatch {
        expected_span: Span,
        found_span: Span,
        param: String,
        expected: String,
        found: String,
    },
    GenericArgArityMismatch { span: Span, name: String, expected: usize, found: usize },
    GenericArgsOnLeadingSegment { span: Span },
    FnArgArityMismatch { expected_span: Span, found_span: Span, expected: usize, found: usize },
    StructArgArityMismatch { expected_span: Span, found_span: Span, expected: usize, found: usize },
    NotCallable { span: Span, found: String },
    FieldNotFound { span: Span, field: String, ty: String },
    TupleIndexOutOfBounds { span: Span, index: usize, len: usize },
    DuplicateField { first_span: Span, span: Span, field: String },
    MissingField { span: Span, field: String },
    TypeMismatch { expected_span: Span, found_span: Span, expected: String, found: String },
    ExpectedValueType { span: Span },
    CannotInferType { span: Span },
}

/// A type checking error as a mathematical value: its texts become sequences.
pub enum ErrorModel {
    CyclicTypeDefinition { span: Span, name: Seq<char> },
    GenericArgKindMismatch {
        expected_span: Span,
        found_span: Span,
        param: Seq<char>,
        expected: Seq<char>,
        found: Seq<char>,
    },
    GenericArgArityMismatch { span: Span, name: Seq<char>, expected: nat, found: nat },
    GenericArgsOnLeadingSegment { span: Span },
    FnArgArityMismatch { expected_span: Span, found_span: Span, expected: nat, found: nat },
    StructArgArityMismatch { expected_span: Span, found_span: Span, expected: nat, found: nat },
    NotCallable { span: Span, found: Seq<char> },
    FieldNotFound { span: Span, field: Seq<char>, ty: Seq<char> },
    TupleIndexOutOfBounds { span: Span, index: nat, len: nat },
    DuplicateField { first_span: Span, span: Span, field: Seq<char> },
    MissingField { span: Span, field: Seq<char> },
    TypeMismatch { expected_span: Span, found_span: Span, expected: Seq<char>, found: Seq<char> },
    ExpectedValueType { span: Span },
    CannotInferType { span: Span },
}

impl TypeCheckerError {
    pub open spec fn model(self) -> ErrorModel {
        match self {
            TypeCheckerError::CyclicTypeDefinition { span, name } => ErrorModel::CyclicTypeDefinition {
                span,
                name: name@,
            },
            TypeCheckerError::GenericArgKindMismatch { expected_span, found_span, param, expected, found } =>
                ErrorModel::GenericArgKindMismatch {
                expected_span,
                found_span,
                param: param@,
                expected: expected@,
                found: found@,
            },
            TypeCheckerError::GenericArgArityMismatch { span, name, expected, found } =>
                ErrorModel::GenericArgArityMismatch { span, name: name@, expected: expected as nat, found: found as nat },
            TypeCheckerError::GenericArgsOnLeadingSegment { span } => ErrorModel::GenericArgsOnLeadingSegment {
                span,
            },
            TypeCheckerError::FnArgArityMismatch { expected_span, found_span, expected, found } =>
                ErrorModel::FnArgArityMismatch {
                expected_span,
                found_span,
                expected: expected as nat,
                found: found as nat,
            },
            TypeCheckerError::StructArgArityMismatch { expected_span, found_span, expected, found } =>
                ErrorModel::StructArgArityMismatch {
                expected_span,
                found_span,
                expected: expected as nat,
                found: found as nat,
            },
            TypeCheckerError::NotCallable { span, found } => ErrorModel::NotCallable { span, found: found@ },
            TypeCheckerError::FieldNotFound { span, field, ty } => ErrorModel::FieldNotFound {
                span,
                field: field@,
                ty: ty@,
            },
            TypeCheckerError::TupleIndexOutOfBounds { span, index, len } => ErrorModel::TupleIndexOutOfBounds {
                span,
                index: index as nat,
                len: len as nat,
            },
            TypeCheckerError::DuplicateField { first_span, span, field } => ErrorModel::DuplicateField {
                first_span,
                span,
                field: field@,
            },
            TypeCheckerError::MissingField { span, field } => ErrorModel::MissingField { span, field: field@ },
            TypeCheckerError::TypeMismatch { expected_span, found_span, expected, found } =>
                ErrorModel::TypeMismatch {
                expected_span,
                found_span,
                expected: expected@,
                found: found@,
            },
            TypeCheckerError::ExpectedValueType { span } => ErrorModel::ExpectedValueType { span },
            TypeCheckerError::CannotInferType { span } => ErrorModel::CannotInferType { span },
        }
    }
}

/// The model of each error of a list.
pub open spec fn errs_model(v: Seq<TypeCheckerError>) -> Seq<ErrorModel> {
    v.map_values(|e: TypeCheckerError| e.model())
}

} // verus!
