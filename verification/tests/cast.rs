use stream_core::cast::{
    align_types, cast_map_array, cast_ok, cast_sigs, least_restrictive, CastContext, DataType,
    FieldList, TypeMismatch,
};
use stream_core::cast::DataType as T;
use stream_core::cast::{align_array_and_element, AlignArrayError};

fn gen_cast_table(allows: CastContext) -> Vec<String> {
    let all_types = &[
        T::Boolean,
        T::Int16,
        T::Int32,
        T::Int64,
        T::Decimal,
        T::Float32,
        T::Float64,
        T::Varchar,
        T::Date,
        T::Timestamp,
        T::Timestamptz,
        T::Time,
        T::Interval,
    ];
    all_types
        .iter()
        .map(|source| {
            all_types
                .iter()
                .map(|target| match cast_ok(source, target, allows) {
                    false => ' ',
                    true => 'T',
                })
                .collect::<String>()
        })
        .collect::<Vec<String>>()
}

#[test]
fn test_cast_ok() {
    // The three expected tables follow PostgreSQL's cast catalog, slightly
    // modified on same-type casts and casts from the string type, as the
    // table's own rules say.

    let actual = gen_cast_table(CastContext::Implicit);
    assert_eq!(
        actual,
        vec![
            "             ", // bool
            "  TTTTT      ",
            "   TTTT      ",
            "    TTT      ",
            "     TT      ",
            "      T      ",
            "             ",
            "             ", // varchar
            "         TT  ",
            "          T  ",
            "             ",
            "            T",
            "             ",
        ]
    );
    let actual = gen_cast_table(CastContext::Assign);
    assert_eq!(
        actual,
        vec![
            "       T     ", // bool
            "  TTTTTT     ",
            " T TTTTT     ",
            " TT TTTT     ",
            " TTT TTT     ",
            " TTTT TT     ",
            " TTTTT T     ",
            "             ", // varchar
            "       T TT  ",
            "       TT TT ",
            "       TTT T ",
            "       T    T",
            "       T   T ",
        ]
    );
    let actual = gen_cast_table(CastContext::Explicit);
    assert_eq!(
        actual,
        vec![
            "  T    T     ", // bool
            "  TTTTTT     ",
            "TT TTTTT     ",
            " TT TTTT     ",
            " TTT TTT     ",
            " TTTT TT     ",
            " TTTTT T     ",
            "TTTTTTT TTTTT", // varchar
            "       T TT  ",
            "       TT TT ",
            "       TTT T ",
            "       T    T",
            "       T   T ",
        ]
    );
}

fn fields(types: Vec<DataType>) -> Box<FieldList> {
    let mut list = FieldList::Nil;
    for t in types.into_iter().rev() {
        list = FieldList::Cons(t, Box::new(list));
    }
    Box::new(list)
}

#[test]
fn cast_ok_structural_types() {

    // Lists cast elementwise.
    let int_list = T::List(Box::new(T::Int32));
    let big_list = T::List(Box::new(T::Int64));
    assert!(cast_ok(&int_list, &big_list, CastContext::Implicit));
    assert!(!cast_ok(&big_list, &int_list, CastContext::Implicit));
    assert!(cast_ok(&big_list, &int_list, CastContext::Assign));

    // Strings cast to composite types only explicitly, back on assignment.
    assert!(!cast_ok(&T::Varchar, &int_list, CastContext::Assign));
    assert!(cast_ok(&T::Varchar, &int_list, CastContext::Explicit));
    assert!(cast_ok(&int_list, &T::Varchar, CastContext::Assign));

    // Structs cast fieldwise, only at equal length.
    let two = T::Struct(fields(vec![T::Int16, T::Date]));
    let two_wide = T::Struct(fields(vec![T::Int64, T::Timestamp]));
    let three = T::Struct(fields(vec![T::Int16, T::Date, T::Boolean]));
    assert!(cast_ok(&two, &two_wide, CastContext::Implicit));
    assert!(!cast_ok(&two_wide, &two, CastContext::Implicit));
    assert!(!cast_ok(&two, &three, CastContext::Explicit));

    // Equal field types pass even where no self-cast exists in the table.
    let bool_struct = T::Struct(fields(vec![T::Boolean]));
    let bool_struct_again = T::Struct(fields(vec![T::Boolean]));
    assert!(cast_ok(&bool_struct, &bool_struct_again, CastContext::Implicit));

    // Maps cast as if they were lists of key-value structs.
    let map_a = T::MapType(Box::new(T::Int16), Box::new(T::Date));
    let map_b = T::MapType(Box::new(T::Int32), Box::new(T::Timestamp));
    assert!(cast_ok(&map_a, &map_b, CastContext::Implicit));
    assert!(!cast_ok(&map_b, &map_a, CastContext::Implicit));
    assert!(!cast_ok(&map_a, &T::Varchar, CastContext::Explicit));
}

#[test]
fn cast_table_enumerations_agree() {
    let triples = cast_map_array();
    assert_eq!(triples.len(), 84);
    let sigs = cast_sigs();
    assert_eq!(sigs.len(), 84);
    for (t, s) in triples.iter().zip(sigs.iter()) {
        assert_eq!(t.0, s.from_type);
        assert_eq!(t.1, s.to_type);
        assert_eq!(t.2, s.context);
    }
    // A spot check against the table: int16 widens to int32 implicitly.
    assert!(triples
        .iter()
        .any(|t| matches!(t, (stream_core::cast::DataTypeName::Int16,
            stream_core::cast::DataTypeName::Int32, CastContext::Implicit))));
}

#[test]
fn least_restrictive_picks_the_wider_type() {
    assert_eq!(least_restrictive(T::Int16, T::Int64), Ok(T::Int64));
    assert_eq!(least_restrictive(T::Int64, T::Int16), Ok(T::Int64));
    assert_eq!(least_restrictive(T::Date, T::Date), Ok(T::Date));
    assert_eq!(
        least_restrictive(T::Boolean, T::Int16),
        Err(TypeMismatch { lhs: T::Boolean, rhs: T::Int16 })
    );
    // Literal strings are considered untyped, so varchar does not align with
    // int32 here.
    assert_eq!(
        least_restrictive(T::Int32, T::Varchar),
        Err(TypeMismatch { lhs: T::Int32, rhs: T::Varchar })
    );
}

#[test]
fn align_types_folds_over_typed_entries() {
    let types = vec![Some(T::Int32), None, Some(T::Int64), Some(T::Int16)];
    assert_eq!(align_types(&types), Ok(T::Int64));

    let untyped: Vec<Option<DataType>> = vec![None, None];
    assert_eq!(align_types(&untyped), Ok(T::Varchar));

    let clash = vec![Some(T::Boolean), Some(T::Date)];
    assert_eq!(
        align_types(&clash),
        Err(TypeMismatch { lhs: T::Boolean, rhs: T::Date })
    );
}

#[test]
fn align_array_and_element_cases() {
    // A typed array argument contributes its element type to the alignment.
    let array = Some(T::List(Box::new(T::Int32)));
    let elements = vec![Some(T::Int64)];
    assert_eq!(
        align_array_and_element(&array, &elements),
        Ok(T::List(Box::new(T::Int64)))
    );

    // An untyped array argument joins as untyped.
    let elements = vec![Some(T::Int32)];
    assert_eq!(
        align_array_and_element(&None, &elements),
        Ok(T::List(Box::new(T::Int32)))
    );

    // All arguments untyped: the common type defaults to the string type.
    let untyped: Vec<Option<DataType>> = vec![None];
    assert_eq!(
        align_array_and_element(&None, &untyped),
        Ok(T::List(Box::new(T::Varchar)))
    );

    // A non-array in array position is rejected as such.
    let not_array = Some(T::Int32);
    assert_eq!(
        align_array_and_element(&not_array, &Vec::new()),
        Err(AlignArrayError::ExpectsArray(T::Int32))
    );
}
