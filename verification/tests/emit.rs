use derive_into_owned::classify::FieldKind;
use derive_into_owned::decimal::decimal_text;
use derive_into_owned::declaration::{
    Body, Case, Field, Fields, LifetimeParam, PathParameters, PathSegment, Type, TypeDeclaration,
    TypeParam,
};
use derive_into_owned::emit::{ctor_fields, impl_into_owned, match_arm};

fn segment(ident: &str, lifetimes: usize) -> PathSegment {
    PathSegment {
        ident: ident.to_string(),
        parameters: PathParameters::AngleBracketed { lifetimes },
    }
}

fn cow() -> Type {
    Type::Path { qualified: false, segments: vec![segment("Cow", 1)] }
}

fn borrowing(ident: &str) -> Type {
    Type::Path { qualified: false, segments: vec![segment(ident, 1)] }
}

fn owning(ident: &str) -> Type {
    Type::Path { qualified: false, segments: vec![segment(ident, 0)] }
}

fn field(ident: &str, ty: Type) -> Field {
    Field { ident: ident.to_string(), ty }
}

fn lifetime(declaration: &str) -> LifetimeParam {
    LifetimeParam { declaration: declaration.to_string() }
}

fn type_param(ident: &str, declaration: &str) -> TypeParam {
    TypeParam { ident: ident.to_string(), declaration: declaration.to_string() }
}

fn structure(ident: &str, lifetimes: Vec<LifetimeParam>, fields: Fields) -> TypeDeclaration {
    TypeDeclaration {
        ident: ident.to_string(),
        lifetimes,
        type_params: vec![],
        body: Body::PlainStructure(fields),
    }
}

#[test]
fn decimal_numerals() {
    assert_eq!(decimal_text(0), "0");
    assert_eq!(decimal_text(7), "7");
    assert_eq!(decimal_text(9), "9");
    assert_eq!(decimal_text(10), "10");
    assert_eq!(decimal_text(42), "42");
    assert_eq!(decimal_text(100), "100");
    assert_eq!(decimal_text(1234567890), "1234567890");
    assert_eq!(decimal_text(usize::MAX), usize::MAX.to_string());
}

#[test]
fn a_moved_field_is_read_and_nothing_more() {
    assert_eq!(FieldKind::JustMoved.move_or_clone_field("self . a"), "self . a");
    assert_eq!(FieldKind::JustMoved.move_or_clone_field("x0"), "x0");
}

#[test]
fn an_assumed_cow_gets_a_call_of_into_owned() {
    assert_eq!(
        FieldKind::AssumedCow.move_or_clone_field("self . a"),
        "self . a . into_owned ( )"
    );
    assert_eq!(FieldKind::AssumedCow.move_or_clone_field("x3"), "x3 . into_owned ( )");
}

#[test]
fn a_plain_cow_is_converted_and_wrapped_in_owned() {
    assert_eq!(
        FieldKind::PlainCow.move_or_clone_field("self . a"),
        ":: std :: borrow :: Cow :: Owned ( self . a . into_owned ( ) )"
    );
    assert_eq!(
        FieldKind::PlainCow.move_or_clone_field("name"),
        ":: std :: borrow :: Cow :: Owned ( name . into_owned ( ) )"
    );
}

#[test]
fn an_empty_access_leaves_no_gap() {
    assert_eq!(FieldKind::JustMoved.move_or_clone_field(""), "");
    assert_eq!(FieldKind::AssumedCow.move_or_clone_field(""), ". into_owned ( )");
}

#[test]
fn constructor_of_named_fields() {
    let fields = Fields::Named(vec![
        field("a", cow()),
        field("b", borrowing("Bar")),
        field("c", owning("String")),
    ]);
    assert_eq!(
        ctor_fields(&fields),
        "{ a : :: std :: borrow :: Cow :: Owned ( self . a . into_owned ( ) ) , \
         b : self . b . into_owned ( ) , c : self . c }"
    );
}

#[test]
fn constructor_of_positional_fields() {
    let fields = Fields::Positional(vec![owning("u8"), cow(), borrowing("Bar")]);
    assert_eq!(
        ctor_fields(&fields),
        "( self . 0 , :: std :: borrow :: Cow :: Owned ( self . 1 . into_owned ( ) ) , \
         self . 2 . into_owned ( ) )"
    );
}

#[test]
fn constructor_of_many_positional_fields_counts_in_decimal() {
    let mut types = Vec::new();
    for _ in 0..12 {
        types.push(owning("u8"));
    }
    assert_eq!(
        ctor_fields(&Fields::Positional(types)),
        "( self . 0 , self . 1 , self . 2 , self . 3 , self . 4 , self . 5 , self . 6 , \
         self . 7 , self . 8 , self . 9 , self . 10 , self . 11 )"
    );
}

#[test]
fn constructor_without_fields() {
    assert_eq!(ctor_fields(&Fields::Unit), "");
    assert_eq!(ctor_fields(&Fields::Named(vec![])), "{ }");
    assert_eq!(ctor_fields(&Fields::Positional(vec![])), "( )");
}

#[test]
fn constructor_of_a_single_field_has_no_comma() {
    assert_eq!(ctor_fields(&Fields::Named(vec![field("only", owning("u8"))])), "{ only : self . only }");
    assert_eq!(ctor_fields(&Fields::Positional(vec![owning("u8")])), "( self . 0 )");
}

#[test]
fn arm_of_a_case_with_named_fields() {
    let case = Case {
        ident: "S".to_string(),
        fields: Fields::Named(vec![field("a", cow()), field("n", owning("u32"))]),
    };
    assert_eq!(
        match_arm("E", &case),
        "E :: S { a , n } => \
         E :: S { a : :: std :: borrow :: Cow :: Owned ( a . into_owned ( ) ) , n : n }"
    );
}

#[test]
fn arm_of_a_case_with_positional_fields() {
    let case = Case {
        ident: "T".to_string(),
        fields: Fields::Positional(vec![borrowing("Bar"), owning("String")]),
    };
    assert_eq!(match_arm("E", &case), "E :: T ( x0 , x1 ) => E :: T ( x0 . into_owned ( ) , x1 )");
}

#[test]
fn arm_of_a_case_without_fields() {
    let case = Case { ident: "U".to_string(), fields: Fields::Unit };
    assert_eq!(match_arm("E", &case), "E :: U => E :: U");
}

#[test]
fn arm_of_a_case_with_empty_brackets() {
    let braces = Case { ident: "A".to_string(), fields: Fields::Named(vec![]) };
    assert_eq!(match_arm("E", &braces), "E :: A { } => E :: A { }");
    let round = Case { ident: "B".to_string(), fields: Fields::Positional(vec![]) };
    assert_eq!(match_arm("E", &round), "E :: B ( ) => E :: B ( )");
}

#[test]
fn structure_without_borrows_is_rebuilt_as_it_is() {
    let decl = structure(
        "Point",
        vec![],
        Fields::Named(vec![field("x", owning("i64")), field("y", owning("i64"))]),
    );
    assert_eq!(
        impl_into_owned(&decl),
        "impl Point { pub fn into_owned ( self ) -> Point { Point { x : self . x , y : self . y } } }"
    );
}

#[test]
fn tuple_structure_without_borrows_is_rebuilt_as_it_is() {
    let decl = structure("Pair", vec![], Fields::Positional(vec![owning("u8"), Type::Other]));
    assert_eq!(
        impl_into_owned(&decl),
        "impl Pair { pub fn into_owned ( self ) -> Pair { Pair ( self . 0 , self . 1 ) } }"
    );
}

#[test]
fn unit_structure_is_rebuilt_by_its_name() {
    let decl = structure("Marker", vec![], Fields::Unit);
    assert_eq!(impl_into_owned(&decl), "impl Marker { pub fn into_owned ( self ) -> Marker { Marker } }");
}

#[test]
fn no_generic_parameters_no_angle_brackets() {
    let decl = structure("Plain", vec![], Fields::Named(vec![field("text", cow())]));
    let code = impl_into_owned(&decl);
    assert!(!code.contains('<'));
    assert!(!code.contains('>') || code.matches('>').count() == code.matches("->").count());
    assert!(code.starts_with("impl Plain { pub fn into_owned ( self ) -> Plain {"));
}

#[test]
fn every_lifetime_becomes_static() {
    let decl = structure(
        "Two",
        vec![lifetime("'a"), lifetime("'b")],
        Fields::Named(vec![field("a", borrowing("A")), field("b", borrowing("B"))]),
    );
    assert_eq!(
        impl_into_owned(&decl),
        "impl < 'a , 'b > Two < 'a , 'b > { pub fn into_owned ( self ) -> Two < 'static , 'static > \
         { Two { a : self . a . into_owned ( ) , b : self . b . into_owned ( ) } } }"
    );
}

#[test]
fn type_parameters_pass_through() {
    let decl = TypeDeclaration {
        ident: "Holder".to_string(),
        lifetimes: vec![lifetime("'a")],
        type_params: vec![type_param("T", "T : Clone"), type_param("U", "U")],
        body: Body::PlainStructure(Fields::Named(vec![
            field("text", cow()),
            field("item", owning("T")),
            field("other", owning("U")),
        ])),
    };
    assert_eq!(
        impl_into_owned(&decl),
        "impl < 'a , T : Clone , U > Holder < 'a , T , U > { \
         pub fn into_owned ( self ) -> Holder < 'static , T , U > { \
         Holder { text : :: std :: borrow :: Cow :: Owned ( self . text . into_owned ( ) ) , \
         item : self . item , other : self . other } } }"
    );
}

#[test]
fn type_parameters_alone() {
    let decl = TypeDeclaration {
        ident: "Wrapper".to_string(),
        lifetimes: vec![],
        type_params: vec![type_param("T", "T")],
        body: Body::PlainStructure(Fields::Positional(vec![owning("T")])),
    };
    assert_eq!(
        impl_into_owned(&decl),
        "impl < T > Wrapper < T > { pub fn into_owned ( self ) -> Wrapper < T > { Wrapper ( self . 0 ) } }"
    );
}

#[test]
fn a_bounded_lifetime_stands_as_it_was_declared() {
    let decl = structure(
        "Nested",
        vec![lifetime("'a"), lifetime("'b : 'a")],
        Fields::Unit,
    );
    assert_eq!(
        impl_into_owned(&decl),
        "impl < 'a , 'b : 'a > Nested < 'a , 'b : 'a > { \
         pub fn into_owned ( self ) -> Nested < 'static , 'static > { Nested } }"
    );
}

#[test]
fn tagged_union_with_the_three_shapes() {
    let decl = TypeDeclaration {
        ident: "E".to_string(),
        lifetimes: vec![lifetime("'a")],
        type_params: vec![],
        body: Body::TaggedUnion(vec![
            Case {
                ident: "S".to_string(),
                fields: Fields::Named(vec![field("a", cow()), field("n", owning("u32"))]),
            },
            Case {
                ident: "T".to_string(),
                fields: Fields::Positional(vec![borrowing("Bar"), owning("String")]),
            },
            Case { ident: "U".to_string(), fields: Fields::Unit },
        ]),
    };
    assert_eq!(
        impl_into_owned(&decl),
        "impl < 'a > E < 'a > { pub fn into_owned ( self ) -> E < 'static > { match self { \
         E :: S { a , n } => \
         E :: S { a : :: std :: borrow :: Cow :: Owned ( a . into_owned ( ) ) , n : n } , \
         E :: T ( x0 , x1 ) => E :: T ( x0 . into_owned ( ) , x1 ) , \
         E :: U => E :: U \
         } } }"
    );
}

#[test]
fn each_arm_is_the_arm_of_its_case() {
    let cases = vec![
        Case { ident: "First".to_string(), fields: Fields::Positional(vec![cow()]) },
        Case { ident: "Second".to_string(), fields: Fields::Unit },
        Case { ident: "Third".to_string(), fields: Fields::Named(vec![field("b", borrowing("B"))]) },
        Case { ident: "Fourth".to_string(), fields: Fields::Unit },
    ];
    let arms: Vec<String> = cases.iter().map(|case| match_arm("Kind", case)).collect();
    let decl = TypeDeclaration {
        ident: "Kind".to_string(),
        lifetimes: vec![],
        type_params: vec![],
        body: Body::TaggedUnion(cases),
    };
    let expected = format!(
        "impl Kind {{ pub fn into_owned ( self ) -> Kind {{ match self {{ {} }} }} }}",
        arms.join(" , ")
    );
    let code = impl_into_owned(&decl);
    assert_eq!(code, expected);
    assert_eq!(code.matches("=>").count(), 4);
    let first = code.find("Kind :: First").unwrap();
    let second = code.find("Kind :: Second").unwrap();
    let third = code.find("Kind :: Third").unwrap();
    let fourth = code.find("Kind :: Fourth").unwrap();
    assert!(first < second && second < third && third < fourth);
    assert!(!code.contains(" _ "));
}

#[test]
fn tagged_union_without_borrows_is_rebuilt_as_it_is() {
    let decl = TypeDeclaration {
        ident: "Shape".to_string(),
        lifetimes: vec![],
        type_params: vec![],
        body: Body::TaggedUnion(vec![
            Case {
                ident: "Circle".to_string(),
                fields: Fields::Named(vec![field("radius", owning("u32"))]),
            },
            Case {
                ident: "Rect".to_string(),
                fields: Fields::Positional(vec![owning("u32"), owning("u32")]),
            },
            Case { ident: "Empty".to_string(), fields: Fields::Unit },
        ]),
    };
    assert_eq!(
        impl_into_owned(&decl),
        "impl Shape { pub fn into_owned ( self ) -> Shape { match self { \
         Shape :: Circle { radius } => Shape :: Circle { radius : radius } , \
         Shape :: Rect ( x0 , x1 ) => Shape :: Rect ( x0 , x1 ) , \
         Shape :: Empty => Shape :: Empty \
         } } }"
    );
}

#[test]
fn tagged_union_without_cases() {
    let decl = TypeDeclaration {
        ident: "Never".to_string(),
        lifetimes: vec![],
        type_params: vec![],
        body: Body::TaggedUnion(vec![]),
    };
    assert_eq!(
        impl_into_owned(&decl),
        "impl Never { pub fn into_owned ( self ) -> Never { match self { } } }"
    );
}

#[test]
fn the_generated_block_reads_as_rust() {
    let decl = structure(
        "Foo",
        vec![lifetime("'a")],
        Fields::Named(vec![field("a", cow()), field("b", borrowing("Bar"))]),
    );
    let code = impl_into_owned(&decl);
    let opened = code.matches('{').count() + code.matches('(').count();
    let closed = code.matches('}').count() + code.matches(')').count();
    assert_eq!(opened, closed);
    assert!(!code.contains("  "));
    assert!(!code.starts_with(' ') && !code.ends_with(' '));
}

#[test]
fn bindings_of_many_positional_fields_are_all_different() {
    let mut types = Vec::new();
    for _ in 0..11 {
        types.push(owning("u8"));
    }
    let case = Case { ident: "Wide".to_string(), fields: Fields::Positional(types) };
    assert_eq!(
        match_arm("E", &case),
        "E :: Wide ( x0 , x1 , x2 , x3 , x4 , x5 , x6 , x7 , x8 , x9 , x10 ) => \
         E :: Wide ( x0 , x1 , x2 , x3 , x4 , x5 , x6 , x7 , x8 , x9 , x10 )"
    );
}
