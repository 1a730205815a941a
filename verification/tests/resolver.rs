use azlc::ast::Type;
use azlc::error::CompileError;
use azlc::ir::{ir_type_of, IrType};

#[test]
fn recognized_spellings() {
    assert_eq!(Type::from_string("int".to_string()), Some(Type::Integer(32)));
    assert_eq!(Type::from_string("int32".to_string()), Some(Type::Integer(32)));
    assert_eq!(Type::from_string("int64".to_string()), Some(Type::Integer(64)));
    assert_eq!(Type::from_string("float".to_string()), Some(Type::Float(32)));
    assert_eq!(Type::from_string("float32".to_string()), Some(Type::Float(32)));
    assert_eq!(Type::from_string("float64".to_string()), Some(Type::Float(64)));
    assert_eq!(Type::from_string("string".to_string()), Some(Type::String));
    assert_eq!(Type::from_string("bool".to_string()), Some(Type::Boolean));
}

#[test]
fn unrecognized_spellings() {
    assert_eq!(Type::from_string("int8".to_string()), None);
    assert_eq!(Type::from_string("Int".to_string()), None);
    assert_eq!(Type::from_string("".to_string()), None);
    assert_eq!(Type::from_string("float16".to_string()), None);
    assert_eq!(Type::from_string("boolean".to_string()), None);
    assert_eq!(Type::from_string(" int".to_string()), None);
}

#[test]
fn primitive_mapping() {
    assert_eq!(ir_type_of(&Type::Integer(32)), Ok(IrType::I32));
    assert_eq!(ir_type_of(&Type::Integer(64)), Ok(IrType::I64));
    assert_eq!(ir_type_of(&Type::Float(32)), Ok(IrType::F32));
    assert_eq!(ir_type_of(&Type::Float(64)), Ok(IrType::F64));
    assert_eq!(ir_type_of(&Type::Boolean), Ok(IrType::Bool));
    assert_eq!(ir_type_of(&Type::String), Ok(IrType::Str));
}

#[test]
fn unimplemented_widths() {
    assert_eq!(ir_type_of(&Type::Integer(16)), Err(CompileError::UnimplementedWidth(16)));
    assert_eq!(ir_type_of(&Type::Integer(0)), Err(CompileError::UnimplementedWidth(0)));
    assert_eq!(ir_type_of(&Type::Float(128)), Err(CompileError::UnimplementedWidth(128)));
    assert_eq!(ir_type_of(&Type::Float(-1)), Err(CompileError::UnimplementedWidth(-1)));
}
