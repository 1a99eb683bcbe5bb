use vstd::prelude::*;
use vstd::string::*;

verus! {

/// How the `Component` derive reaches the drawables held by one field.
#[derive(Debug, Clone, Copy, PartialEq, Eq, Structural)]
pub enum ChildType {
    /// `Vec<T>`: every element.
    Vector,
    /// Any other type: the field itself.
    Child,
    /// `Option<T>`: the value, when there is one.
    Opt,
    /// `Box<T>`: the boxed value.
    Boxed,
    /// `Vec<Box<T>>`: every boxed element.
    VecBox,
}

/// What the derive reads of a field's type: the first segment of its path
/// (`None` when the type is no path) and, for a path with angle-bracketed
/// arguments whose first argument is a path type, that argument's first segment.
#[derive(Debug)]
pub struct FieldType {
    pub first_segment: Option<String>,
    pub first_argument_segment: Option<String>,
}

/// A field of a struct deriving `Component`.
#[derive(Debug)]
pub struct FieldInfo {
    pub ty: FieldType,
    /// Whether the field carries the `#[skip]` attribute.
    pub skip: bool,
}

/// What the derive was applied to. Fields of a tuple struct are named by their
/// index, those of a struct with named fields by their position too.
#[derive(Debug)]
pub enum DeriveInput {
    NamedStruct(Vec<FieldInfo>),
    TupleStruct(Vec<FieldInfo>),
    UnitStruct,
    /// The variants, in order.
    Enum(Vec<VariantFields>),
    Union,
}

/// The fields of an enum variant, as the derive reads them: whether they are
/// named, in parentheses or absent, and the type of the first field
/// (`None` for braces or parentheses without fields).
#[derive(Debug)]
pub enum VariantFields {
    Named(Option<FieldType>),
    Unnamed(Option<FieldType>),
    Unit,
}

/// Which field of a variant the generated code takes as its component: in a
/// variant with named fields, the field named `c` (the pattern `{c, ..}`), so
/// such a variant must have a field of that name for the code to compile; in a
/// variant with fields in parentheses, the first one (the pattern `(c, ..)`).
#[derive(Debug, Clone, Copy, PartialEq, Eq, Structural)]
pub enum VariantBinding {
    FieldNamedC,
    FirstField,
}

/// Why `Component` cannot be derived.
#[derive(Debug, Clone, Copy, PartialEq, Eq, Structural)]
pub enum DeriveError {
    /// A struct without fields: its first field must be the layout.
    MissingLayout,
    /// A unit struct.
    UnitStruct,
    /// A struct whose only unskipped fields are the layout.
    NoChildren,
    /// An enum variant without fields.
    VariantWithoutComponent,
    Union,
}

/// What the derive generates: for a struct, the position of the layout field
/// and of each child field with how it is reached; for an enum, for each
/// variant which field is bound as its component and whether it is reached
/// through a `Box` (judged, as the derive does, by the type of the first field).
#[derive(Debug)]
pub enum ComponentPlan {
    Struct { layout: usize, children: Vec<(usize, ChildType)> },
    Enum { variants: Vec<(VariantBinding, bool)> },
}

pub open spec fn is_segment(s: Option<String>, name: Seq<char>) -> bool {
    s matches Some(x) && x@ == name
}

/// How a field of type `ty` is reached (`ChildType::from_field`).
pub open spec fn spec_child_type(ty: FieldType) -> ChildType {
    if is_segment(ty.first_segment, "Option"@) {
        ChildType::Opt
    } else if is_segment(ty.first_segment, "Vec"@) {
        if is_segment(ty.first_argument_segment, "Box"@) {
            ChildType::VecBox
        } else {
            ChildType::Vector
        }
    } else if is_segment(ty.first_segment, "Box"@) {
        ChildType::Boxed
    } else {
        ChildType::Child
    }
}

/// The child fields: every field after the first that is not skipped, in order,
/// with its position.
pub open spec fn spec_children(fields: Seq<FieldInfo>) -> Seq<(usize, ChildType)>
    decreases fields.len(),
{
    if fields.len() <= 1 {
        Seq::empty()
    } else {
        let last = fields.len() - 1;
        let rest = spec_children(fields.drop_last());
        if fields[last].skip {
            rest
        } else {
            rest.push((last as usize, spec_child_type(fields[last].ty)))
        }
    }
}

/// Whether the first field of an enum variant is boxed.
pub open spec fn spec_variant_boxed(ty: FieldType) -> bool {
    is_segment(ty.first_segment, "Box"@)
}

/// The first field of a variant, if it has one.
pub open spec fn variant_first_field(v: VariantFields) -> Option<FieldType> {
    match v {
        VariantFields::Named(first) => first,
        VariantFields::Unnamed(first) => first,
        VariantFields::Unit => None,
    }
}

/// What the derive generates for a variant that has a first field.
pub open spec fn spec_variant_plan(v: VariantFields) -> (VariantBinding, bool) {
    (
        if v is Named { VariantBinding::FieldNamedC } else { VariantBinding::FirstField },
        spec_variant_boxed(variant_first_field(v)->Some_0),
    )
}

fn segment_is(s: &Option<String>, name: &str) -> (r: bool)
    ensures
        r == is_segment(*s, name@),
{
    match s {
        Some(x) => *x == String::from_str(name),
        None => false,
    }
}

/// How a field of type `ty` is reached.
pub fn child_type(ty: &FieldType) -> (r: ChildType)
    ensures
        r == spec_child_type(*ty),
{
    if segment_is(&ty.first_segment, "Option") {
        ChildType::Opt
    } else if segment_is(&ty.first_segment, "Vec") {
        if segment_is(&ty.first_argument_segment, "Box") {
            ChildType::VecBox
        } else {
            ChildType::Vector
        }
    } else if segment_is(&ty.first_segment, "Box") {
        ChildType::Boxed
    } else {
        ChildType::Child
    }
}

fn children_of(fields: &Vec<FieldInfo>) -> (r: Vec<(usize, ChildType)>)
    ensures
        r@ == spec_children(fields@),
{
    let mut children: Vec<(usize, ChildType)> = Vec::new();
    let mut i: usize = 1;
    while i < fields.len()
        invariant
            1 <= i <= fields@.len() || (fields@.len() == 0 && i == 1),
            children@ == spec_children(fields@.subrange(0, if i <= fields@.len() { i as int } else { 0 })),
        decreases fields@.len() + 1 - i,
    {
        let ghost prefix = fields@.subrange(0, i as int);
        let ghost next = fields@.subrange(0, i + 1);
        assert(next.drop_last() =~= prefix);
        assert(next[i as int] == fields@[i as int]);
        if !fields[i].skip {
            children.push((i, child_type(&fields[i].ty)));
        }
        i = i + 1;
    }
    proof {
        if fields@.len() > 0 {
            assert(fields@.subrange(0, fields@.len() as int) =~= fields@);
        } else {
            assert(fields@.subrange(0, 0) =~= fields@);
        }
    }
    children
}

/// The result for a struct with the given fields: its first field is the
/// layout, the unskipped others its children.
pub open spec fn struct_plan_is(fields: Seq<FieldInfo>, r: Result<ComponentPlan, DeriveError>) -> bool {
    if fields.len() == 0 {
        r == Err::<ComponentPlan, DeriveError>(DeriveError::MissingLayout)
    } else if spec_children(fields).len() == 0 {
        r == Err::<ComponentPlan, DeriveError>(DeriveError::NoChildren)
    } else {
        r matches Ok(ComponentPlan::Struct { layout, children }) && layout == 0 && children@ == spec_children(fields)
    }
}

fn plan_struct(fields: &Vec<FieldInfo>) -> (r: Result<ComponentPlan, DeriveError>)
    ensures
        struct_plan_is(fields@, r),
{
    if fields.len() == 0 {
        return Err(DeriveError::MissingLayout);
    }
    let children = children_of(fields);
    if children.len() == 0 {
        return Err(DeriveError::NoChildren);
    }
    Ok(ComponentPlan::Struct { layout: 0, children })
}

/// The result for an enum with these variants: a variant without fields is
/// refused; otherwise each variant is planned in order.
pub open spec fn enum_plan_is(variants: Seq<VariantFields>, r: Result<ComponentPlan, DeriveError>) -> bool {
    if exists|i: int| 0 <= i < variants.len() && #[trigger] variant_first_field(variants[i]) is None {
        r == Err::<ComponentPlan, DeriveError>(DeriveError::VariantWithoutComponent)
    } else {
        r matches Ok(ComponentPlan::Enum { variants: planned }) && planned@.len() == variants.len() && forall|i: int|
            0 <= i < variants.len() ==> #[trigger] planned@[i] == spec_variant_plan(variants[i])
    }
}

fn plan_enum(variants: &Vec<VariantFields>) -> (r: Result<ComponentPlan, DeriveError>)
    ensures
        enum_plan_is(variants@, r),
{
    let mut planned: Vec<(VariantBinding, bool)> = Vec::new();
    let mut i: usize = 0;
    while i < variants.len()
        invariant
            i <= variants@.len(),
            planned@.len() == i,
            forall|j: int| 0 <= j < i ==> #[trigger] variant_first_field(variants@[j]) is Some,
            forall|j: int| 0 <= j < i ==> #[trigger] planned@[j] == spec_variant_plan(variants@[j]),
        decreases variants@.len() - i,
    {
        let (binding, first) = match &variants[i] {
            VariantFields::Named(first) => (VariantBinding::FieldNamedC, first),
            VariantFields::Unnamed(first) => (VariantBinding::FirstField, first),
            VariantFields::Unit => {
                assert(variant_first_field(variants@[i as int]) is None);
                return Err(DeriveError::VariantWithoutComponent);
            },
        };
        match first {
            Some(ty) => {
                planned.push((binding, segment_is(&ty.first_segment, "Box")));
            },
            None => {
                assert(variant_first_field(variants@[i as int]) is None);
                return Err(DeriveError::VariantWithoutComponent);
            },
        }
        i = i + 1;
    }
    Ok(ComponentPlan::Enum { variants: planned })
}

/// What `#[derive(Component)]` makes of the input, or why it refuses it.
pub fn plan_component(input: &DeriveInput) -> (r: Result<ComponentPlan, DeriveError>)
    ensures
        match input {
            DeriveInput::NamedStruct(fields) => struct_plan_is(fields@, r),
            DeriveInput::TupleStruct(fields) => struct_plan_is(fields@, r),
            DeriveInput::UnitStruct => r == Err::<ComponentPlan, DeriveError>(DeriveError::UnitStruct),
            DeriveInput::Enum(variants) => enum_plan_is(variants@, r),
            DeriveInput::Union => r == Err::<ComponentPlan, DeriveError>(DeriveError::Union),
        },
{
    match input {
        DeriveInput::NamedStruct(fields) => plan_struct(fields),
        DeriveInput::TupleStruct(fields) => plan_struct(fields),
        DeriveInput::UnitStruct => Err(DeriveError::UnitStruct),
        DeriveInput::Enum(variants) => plan_enum(variants),
        DeriveInput::Union => Err(DeriveError::Union),
    }
}

impl DeriveError {
    pub open spec fn spec_message(self) -> Seq<char> {
        match self {
            DeriveError::MissingLayout => "Component requires the first field of the structure to be the layout"@,
            DeriveError::UnitStruct => "Component requires a Layout and at least one child"@,
            DeriveError::NoChildren => "Component requires at least one child component in the structure"@,
            DeriveError::VariantWithoutComponent => "Enumerator Component requires the first field of each variant to be a Component"@,
            DeriveError::Union => "Cannot implement Component for a Union"@,
        }
    }

    /// The message the derive stops with.
    pub fn message(&self) -> (r: String)
        ensures
            r@ == self.spec_message(),
    {
        match self {
            DeriveError::MissingLayout => String::from_str("Component requires the first field of the structure to be the layout"),
            DeriveError::UnitStruct => String::from_str("Component requires a Layout and at least one child"),
            DeriveError::NoChildren => String::from_str("Component requires at least one child component in the structure"),
            DeriveError::VariantWithoutComponent => String::from_str(
                "Enumerator Component requires the first field of each variant to be a Component",
            ),
            DeriveError::Union => String::from_str("Cannot implement Component for a Union"),
        }
    }
}

/// The layout field is never a child, and every child is a field of the struct.
pub proof fn lemma_children_are_later_fields(fields: Seq<FieldInfo>, i: int)
    requires
        0 <= i < spec_children(fields).len(),
        fields.len() <= usize::MAX,
    ensures
        1 <= spec_children(fields)[i].0 < fields.len(),
        !fields[spec_children(fields)[i].0 as int].skip,
    decreases fields.len(),
{
    let rest = spec_children(fields.drop_last());
    let last = fields.len() - 1;
    if i < rest.len() {
        lemma_children_are_later_fields(fields.drop_last(), i);
        assert(spec_children(fields)[i] == rest[i]);
        assert(fields.drop_last()[rest[i].0 as int] == fields[rest[i].0 as int]);
    } else {
        assert(spec_children(fields)[i] == (last as usize, spec_child_type(fields[last].ty)));
    }
}

/// Every field after the layout that is not skipped is a child, reached as its
/// type says: the plan leaves out no such field.
pub proof fn lemma_children_complete(fields: Seq<FieldInfo>, i: int)
    requires
        1 <= i < fields.len(),
        !fields[i].skip,
        fields.len() <= usize::MAX,
    ensures
        exists|k: int|
            0 <= k < spec_children(fields).len() && #[trigger] spec_children(fields)[k] == (
                i as usize,
                spec_child_type(fields[i].ty),
            ),
    decreases fields.len(),
{
    let last = fields.len() - 1;
    let rest = spec_children(fields.drop_last());
    if i == last {
        assert(spec_children(fields)[rest.len() as int] == (i as usize, spec_child_type(fields[i].ty)));
    } else {
        assert(fields.drop_last()[i] == fields[i]);
        lemma_children_complete(fields.drop_last(), i);
        let k = choose|k: int|
            0 <= k < rest.len() && #[trigger] rest[k] == (i as usize, spec_child_type(fields.drop_last()[i].ty));
        assert(spec_children(fields)[k] == rest[k]);
    }
}

/// The children come in the order of their fields, each field at most once.
pub proof fn lemma_children_in_field_order(fields: Seq<FieldInfo>, a: int, b: int)
    requires
        0 <= a < b < spec_children(fields).len(),
        fields.len() <= usize::MAX,
    ensures
        spec_children(fields)[a].0 < spec_children(fields)[b].0,
    decreases fields.len(),
{
    let last = fields.len() - 1;
    let rest = spec_children(fields.drop_last());
    if b < rest.len() {
        lemma_children_in_field_order(fields.drop_last(), a, b);
        assert(spec_children(fields)[a] == rest[a]);
        assert(spec_children(fields)[b] == rest[b]);
    } else {
        lemma_children_are_later_fields(fields.drop_last(), a);
        assert(spec_children(fields)[a] == rest[a]);
        assert(spec_children(fields)[b].0 == last);
    }
}

/// How the derive reaches a field, by the first segment of its type: `Option`
/// through its value, `Vec` through each element (each boxed element for
/// `Vec<Box<..>>`), `Box` through the box, anything else directly.
pub proof fn lemma_child_types(ty: FieldType)
    ensures
        ty.first_segment matches Some(s) && s@ == "Option"@ ==> spec_child_type(ty) == ChildType::Opt,
        ty.first_segment matches Some(s) && s@ == "Vec"@ ==> spec_child_type(ty) == (
            if ty.first_argument_segment matches Some(a) && a@ == "Box"@ {
                ChildType::VecBox
            } else {
                ChildType::Vector
            }),
        ty.first_segment matches Some(s) && s@ == "Box"@ ==> spec_child_type(ty) == ChildType::Boxed,
        ty.first_segment matches Some(s) && s@ != "Option"@ && s@ != "Vec"@ && s@ != "Box"@
            ==> spec_child_type(ty) == ChildType::Child,
        ty.first_segment is None ==> spec_child_type(ty) == ChildType::Child,
{
    reveal_strlit("Option");
    reveal_strlit("Vec");
    reveal_strlit("Box");
    assert("Vec"@ != "Option"@) by {
        assert("Vec"@.len() != "Option"@.len());
    }
    assert("Box"@ != "Option"@) by {
        assert("Box"@.len() != "Option"@.len());
    }
    assert("Box"@ != "Vec"@) by {
        assert("Box"@[0] != "Vec"@[0]);
    }
}

} // verus!
