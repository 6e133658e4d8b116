//! The members of a uniform struct, known at run time, and the WGSL that declares them.

use vstd::prelude::*;
use super::super::text::{wgsl_matrix, wgsl_vector};

verus! {

/// The WGSL types that a uniform member can have.
#[derive(Debug, Clone, Copy, PartialEq, Eq, Structural)]
pub enum UniformType {
    Bool,
    U32, U32x2, U32x3, U32x4,
    I32, I32x2, I32x3, I32x4,
    F32, F32x2, F32x3, F32x4,
    Mat2, Mat3, Mat4,
    Mat2x3, Mat2x4,
    Mat3x2, Mat3x4,
    Mat4x2, Mat4x3,
}

impl UniformType {
    /// The WGSL spelling of the type.
    pub open spec fn wgsl(self) -> Seq<char> {
        match self {
            UniformType::Bool => "bool"@,
            UniformType::U32 => "u32"@,
            UniformType::U32x2 => "vec2<u32>"@,
            UniformType::U32x3 => "vec3<u32>"@,
            UniformType::U32x4 => "vec4<u32>"@,
            UniformType::I32 => "i32"@,
            UniformType::I32x2 => "vec2<i32>"@,
            UniformType::I32x3 => "vec3<i32>"@,
            UniformType::I32x4 => "vec4<i32>"@,
            UniformType::F32 => "f32"@,
            UniformType::F32x2 => "vec2<f32>"@,
            UniformType::F32x3 => "vec3<f32>"@,
            UniformType::F32x4 => "vec4<f32>"@,
            UniformType::Mat2 => "mat2x2f"@,
            UniformType::Mat3 => "mat3x3f"@,
            UniformType::Mat4 => "mat4x4f"@,
            UniformType::Mat2x3 => "mat2x3f"@,
            UniformType::Mat2x4 => "mat2x4f"@,
            UniformType::Mat3x2 => "mat3x2f"@,
            UniformType::Mat3x4 => "mat3x4f"@,
            UniformType::Mat4x2 => "mat4x2f"@,
            UniformType::Mat4x3 => "mat4x3f"@,
        }
    }

    /// Returns the WGSL type string for this uniform type.
    pub fn to_string(&self) -> (s: &'static str)
        ensures
            s@ == self.wgsl(),
    {
        match self {
            UniformType::Bool => "bool",
            UniformType::U32 => "u32",
            UniformType::U32x2 => "vec2<u32>",
            UniformType::U32x3 => "vec3<u32>",
            UniformType::U32x4 => "vec4<u32>",
            UniformType::I32 => "i32",
            UniformType::I32x2 => "vec2<i32>",
            UniformType::I32x3 => "vec3<i32>",
            UniformType::I32x4 => "vec4<i32>",
            UniformType::F32 => "f32",
            UniformType::F32x2 => "vec2<f32>",
            UniformType::F32x3 => "vec3<f32>",
            UniformType::F32x4 => "vec4<f32>",
            UniformType::Mat2 => "mat2x2f",
            UniformType::Mat3 => "mat3x3f",
            UniformType::Mat4 => "mat4x4f",
            UniformType::Mat2x3 => "mat2x3f",
            UniformType::Mat2x4 => "mat2x4f",
            UniformType::Mat3x2 => "mat3x2f",
            UniformType::Mat3x4 => "mat3x4f",
            UniformType::Mat4x2 => "mat4x2f",
            UniformType::Mat4x3 => "mat4x3f",
        }
    }
}

impl UniformType {
    /// The scalar of a scalar or vector type, if the type is one.
    pub open spec fn scalar_name(self) -> Option<Seq<char>> {
        match self {
            UniformType::Bool => Some("bool"@),
            UniformType::U32 => Some("u32"@),
            UniformType::U32x2 => Some("u32"@),
            UniformType::U32x3 => Some("u32"@),
            UniformType::U32x4 => Some("u32"@),
            UniformType::I32 => Some("i32"@),
            UniformType::I32x2 => Some("i32"@),
            UniformType::I32x3 => Some("i32"@),
            UniformType::I32x4 => Some("i32"@),
            UniformType::F32 => Some("f32"@),
            UniformType::F32x2 => Some("f32"@),
            UniformType::F32x3 => Some("f32"@),
            UniformType::F32x4 => Some("f32"@),
            _ => None,
        }
    }

    /// The number of components of a scalar (1) or vector type; 0 for a matrix.
    pub open spec fn vector_size(self) -> nat {
        match self {
            UniformType::Bool => 1,
            UniformType::U32 => 1,
            UniformType::U32x2 => 2,
            UniformType::U32x3 => 3,
            UniformType::U32x4 => 4,
            UniformType::I32 => 1,
            UniformType::I32x2 => 2,
            UniformType::I32x3 => 3,
            UniformType::I32x4 => 4,
            UniformType::F32 => 1,
            UniformType::F32x2 => 2,
            UniformType::F32x3 => 3,
            UniformType::F32x4 => 4,
            _ => 0,
        }
    }

    /// The columns and rows of a matrix type, if the type is one.
    pub open spec fn matrix_shape(self) -> Option<(nat, nat)> {
        match self {
            UniformType::Mat2 => Some((2, 2)),
            UniformType::Mat3 => Some((3, 3)),
            UniformType::Mat4 => Some((4, 4)),
            UniformType::Mat2x3 => Some((2, 3)),
            UniformType::Mat2x4 => Some((2, 4)),
            UniformType::Mat3x2 => Some((3, 2)),
            UniformType::Mat3x4 => Some((3, 4)),
            UniformType::Mat4x2 => Some((4, 2)),
            UniformType::Mat4x3 => Some((4, 3)),
            _ => None,
        }
    }
}

/// The WGSL spelling of a uniform type has the type's shape: a scalar is spelled by its
/// scalar, an `n`-component vector of scalar `s` as `vec<n><s>`, and a matrix of `c` columns
/// and `r` rows as `mat<c>x<r>f`; every type is exactly one of these.
pub proof fn lemma_uniform_type_spelling(t: UniformType)
    ensures
        t.scalar_name() is Some <==> t.matrix_shape() is None,
        t.scalar_name() matches Some(s) ==> 1 <= t.vector_size() <= 4 && t.wgsl() == wgsl_vector(t.vector_size(), s),
        t.matrix_shape() matches Some((c, r)) ==> 2 <= c <= 4 && 2 <= r <= 4 && t.wgsl() == wgsl_matrix(c, r),
{
    match t {
        UniformType::Bool => {
            reveal_strlit("bool");
            reveal_strlit("bool");
            assert(t.wgsl() =~= wgsl_vector(1, "bool"@));
        },
        UniformType::U32 => {
            reveal_strlit("u32");
            reveal_strlit("u32");
            assert(t.wgsl() =~= wgsl_vector(1, "u32"@));
        },
        UniformType::U32x2 => {
            reveal_strlit("vec2<u32>");
            reveal_strlit("u32");
            reveal_strlit("vec");
            reveal_strlit("<");
            reveal_strlit(">");
            assert(t.wgsl() =~= wgsl_vector(2, "u32"@));
        },
        UniformType::U32x3 => {
            reveal_strlit("vec3<u32>");
            reveal_strlit("u32");
            reveal_strlit("vec");
            reveal_strlit("<");
            reveal_strlit(">");
            assert(t.wgsl() =~= wgsl_vector(3, "u32"@));
        },
        UniformType::U32x4 => {
            reveal_strlit("vec4<u32>");
            reveal_strlit("u32");
            reveal_strlit("vec");
            reveal_strlit("<");
            reveal_strlit(">");
            assert(t.wgsl() =~= wgsl_vector(4, "u32"@));
        },
        UniformType::I32 => {
            reveal_strlit("i32");
            reveal_strlit("i32");
            assert(t.wgsl() =~= wgsl_vector(1, "i32"@));
        },
        UniformType::I32x2 => {
            reveal_strlit("vec2<i32>");
            reveal_strlit("i32");
            reveal_strlit("vec");
            reveal_strlit("<");
            reveal_strlit(">");
            assert(t.wgsl() =~= wgsl_vector(2, "i32"@));
        },
        UniformType::I32x3 => {
            reveal_strlit("vec3<i32>");
            reveal_strlit("i32");
            reveal_strlit("vec");
            reveal_strlit("<");
            reveal_strlit(">");
            assert(t.wgsl() =~= wgsl_vector(3, "i32"@));
        },
        UniformType::I32x4 => {
            reveal_strlit("vec4<i32>");
            reveal_strlit("i32");
            reveal_strlit("vec");
            reveal_strlit("<");
            reveal_strlit(">");
            assert(t.wgsl() =~= wgsl_vector(4, "i32"@));
        },
        UniformType::F32 => {
            reveal_strlit("f32");
            reveal_strlit("f32");
            assert(t.wgsl() =~= wgsl_vector(1, "f32"@));
        },
        UniformType::F32x2 => {
            reveal_strlit("vec2<f32>");
            reveal_strlit("f32");
            reveal_strlit("vec");
            reveal_strlit("<");
            reveal_strlit(">");
            assert(t.wgsl() =~= wgsl_vector(2, "f32"@));
        },
        UniformType::F32x3 => {
            reveal_strlit("vec3<f32>");
            reveal_strlit("f32");
            reveal_strlit("vec");
            reveal_strlit("<");
            reveal_strlit(">");
            assert(t.wgsl() =~= wgsl_vector(3, "f32"@));
        },
        UniformType::F32x4 => {
            reveal_strlit("vec4<f32>");
            reveal_strlit("f32");
            reveal_strlit("vec");
            reveal_strlit("<");
            reveal_strlit(">");
            assert(t.wgsl() =~= wgsl_vector(4, "f32"@));
        },
        UniformType::Mat2 => {
            reveal_strlit("mat2x2f");
            reveal_strlit("mat");
            reveal_strlit("x");
            reveal_strlit("f");
            assert(t.wgsl() =~= wgsl_matrix(2, 2));
        },
        UniformType::Mat3 => {
            reveal_strlit("mat3x3f");
            reveal_strlit("mat");
            reveal_strlit("x");
            reveal_strlit("f");
            assert(t.wgsl() =~= wgsl_matrix(3, 3));
        },
        UniformType::Mat4 => {
            reveal_strlit("mat4x4f");
            reveal_strlit("mat");
            reveal_strlit("x");
            reveal_strlit("f");
            assert(t.wgsl() =~= wgsl_matrix(4, 4));
        },
        UniformType::Mat2x3 => {
            reveal_strlit("mat2x3f");
            reveal_strlit("mat");
            reveal_strlit("x");
            reveal_strlit("f");
            assert(t.wgsl() =~= wgsl_matrix(2, 3));
        },
        UniformType::Mat2x4 => {
            reveal_strlit("mat2x4f");
            reveal_strlit("mat");
            reveal_strlit("x");
            reveal_strlit("f");
            assert(t.wgsl() =~= wgsl_matrix(2, 4));
        },
        UniformType::Mat3x2 => {
            reveal_strlit("mat3x2f");
            reveal_strlit("mat");
            reveal_strlit("x");
            reveal_strlit("f");
            assert(t.wgsl() =~= wgsl_matrix(3, 2));
        },
        UniformType::Mat3x4 => {
            reveal_strlit("mat3x4f");
            reveal_strlit("mat");
            reveal_strlit("x");
            reveal_strlit("f");
            assert(t.wgsl() =~= wgsl_matrix(3, 4));
        },
        UniformType::Mat4x2 => {
            reveal_strlit("mat4x2f");
            reveal_strlit("mat");
            reveal_strlit("x");
            reveal_strlit("f");
            assert(t.wgsl() =~= wgsl_matrix(4, 2));
        },
        UniformType::Mat4x3 => {
            reveal_strlit("mat4x3f");
            reveal_strlit("mat");
            reveal_strlit("x");
            reveal_strlit("f");
            assert(t.wgsl() =~= wgsl_matrix(4, 3));
        },
    }
}

/// A named member of a uniform struct.
#[derive(Debug)]
struct NamedUniform {
    name: String,
    uniform_type: UniformType,
}

impl Clone for NamedUniform {
    fn clone(&self) -> (c: Self)
        ensures
            c == *self,
    {
        NamedUniform { name: self.name.clone(), uniform_type: self.uniform_type }
    }
}

/// A copy of `members`, member by member.
fn clone_members(members: &Vec<NamedUniform>) -> (c: Vec<NamedUniform>)
    ensures
        c@ == members@,
{
    let mut c: Vec<NamedUniform> = Vec::new();
    let mut i: usize = 0;
    while i < members.len()
        invariant
            i <= members@.len(),
            c@ == members@.take(i as int),
        decreases members@.len() - i,
    {
        c.push(members[i].clone());
        assert(c@ =~= members@.take(i + 1));
        i = i + 1;
    }
    assert(members@.take(members@.len() as int) =~= members@);
    c
}

/// The type of the first member named `name` in `members`, if any.
pub open spec fn lookup_member(members: Seq<(Seq<char>, UniformType)>, name: Seq<char>) -> Option<UniformType>
    decreases members.len(),
{
    if members.len() == 0 {
        None
    } else if members[0].0 == name {
        Some(members[0].1)
    } else {
        lookup_member(members.drop_first(), name)
    }
}

/// Whether no two members share a name.
pub open spec fn distinct_names(members: Seq<(Seq<char>, UniformType)>) -> bool {
    forall|i: int, j: int| 0 <= i < j < members.len() ==> members[i].0 != members[j].0
}

spec fn member_views(members: Seq<NamedUniform>) -> Seq<(Seq<char>, UniformType)> {
    members.map_values(|m: NamedUniform| (m.name@, m.uniform_type))
}

/// The type of the first member of `members` named `name`, if any.
fn find_member(members: &Vec<NamedUniform>, name: &str) -> (t: Option<UniformType>)
    ensures
        t == lookup_member(member_views(members@), name@),
{
    let ghost views = member_views(members@);
    let key = String::from_str(name);
    let mut i: usize = 0;
    assert(views.skip(0) =~= views);
    while i < members.len()
        invariant
            i <= members@.len(),
            views == member_views(members@),
            key@ == name@,
            lookup_member(views, name@) == lookup_member(views.skip(i as int), name@),
        decreases members@.len() - i,
    {
        let ghost rest = views.skip(i as int);
        assert(rest[0] == (members@[i as int].name@, members@[i as int].uniform_type));
        if members[i].name == key {
            return Some(members[i].uniform_type);
        }
        assert(rest.drop_first() =~= views.skip(i + 1));
        i = i + 1;
    }
    None
}

/// A builder for creating a [`DynamicUniformBuffer`].
pub struct DynamicUniformBufferBuilder {
    min_size: u64,
    members: Vec<NamedUniform>,
}

impl DynamicUniformBufferBuilder {
    #[verifier::type_invariant]
    spec fn inv(self) -> bool {
        &&& self.min_size > 0
        &&& distinct_names(member_views(self.members@))
    }

    /// The minimum size in bytes of the uniform buffer.
    pub closed spec fn min_size_spec(self) -> u64 {
        self.min_size
    }

    /// The members added so far, in order, by name and type.
    pub closed spec fn members(self) -> Seq<(Seq<char>, UniformType)> {
        member_views(self.members@)
    }

    /// Creates a new builder with the specified minimum buffer size (in bytes, not zero).
    pub fn new(min_size: u64) -> (b: Self)
        requires
            min_size > 0,
        ensures
            b.min_size_spec() == min_size,
            b.members() == Seq::<(Seq<char>, UniformType)>::empty(),
    {
        let b = Self { min_size, members: Vec::new() };
        assert(b.members() =~= Seq::<(Seq<char>, UniformType)>::empty());
        b
    }

    /// Adds a member to the uniform struct. No member of that name may exist yet.
    pub fn with_member(self, name: &str, uniform_type: UniformType) -> (b: Self)
        requires
            lookup_member(self.members(), name@) is None,
        ensures
            b.min_size_spec() == self.min_size_spec(),
            b.members() == self.members().push((name@, uniform_type)),
            distinct_names(b.members()),
    {
        proof {
            use_type_invariant(&self);
            lemma_lookup_none_absent(self.members(), name@);
        }
        let Self { min_size, mut members } = self;
        let ghost old_views = member_views(members@);
        members.push(NamedUniform { name: String::from_str(name), uniform_type });
        assert(member_views(members@) =~= old_views.push((name@, uniform_type)));
        let b = Self { min_size, members };
        proof {
            use_type_invariant(&b);
        }
        b
    }

    /// Whether a member of that name was added already.
    pub fn has_member(&self, name: &str) -> (b: bool)
        ensures
            b == lookup_member(self.members(), name@) is Some,
    {
        find_member(&self.members, name).is_some()
    }

    /// Builds the [`DynamicUniformBuffer`].
    pub fn build(self) -> (u: DynamicUniformBuffer)
        ensures
            u.min_size_spec() == self.min_size_spec(),
            u.members() == self.members(),
            distinct_names(u.members()),
    {
        proof {
            use_type_invariant(&self);
        }
        let Self { min_size, members } = self;
        DynamicUniformBuffer { min_size, members }
    }
}

/// A member that `lookup_member` does not find is not in the list.
pub proof fn lemma_lookup_none_absent(members: Seq<(Seq<char>, UniformType)>, name: Seq<char>)
    requires
        lookup_member(members, name) is None,
    ensures
        forall|i: int| 0 <= i < members.len() ==> #[trigger] members[i].0 != name,
    decreases members.len(),
{
    if members.len() > 0 {
        lemma_lookup_none_absent(members.drop_first(), name);
        assert forall|i: int| 0 <= i < members.len() implies #[trigger] members[i].0 != name by {
            if i > 0 {
                assert(members[i] == members.drop_first()[i - 1]);
            }
        }
    }
}

/// The members and minimum size of a uniform struct, with the WGSL that declares it.
#[derive(Debug)]
pub struct DynamicUniformBuffer {
    min_size: u64,
    members: Vec<NamedUniform>,
}

impl Clone for DynamicUniformBuffer {
    fn clone(&self) -> (c: Self)
        ensures
            c.min_size_spec() == self.min_size_spec(),
            c.members() == self.members(),
    {
        proof {
            use_type_invariant(self);
        }
        DynamicUniformBuffer { min_size: self.min_size, members: clone_members(&self.members) }
    }
}

impl DynamicUniformBuffer {
    #[verifier::type_invariant]
    spec fn inv(self) -> bool {
        &&& self.min_size > 0
        &&& distinct_names(member_views(self.members@))
    }

    /// The minimum size in bytes of the uniform buffer.
    pub closed spec fn min_size_spec(self) -> u64 {
        self.min_size
    }

    /// The members, in order, by name and type.
    pub closed spec fn members(self) -> Seq<(Seq<char>, UniformType)> {
        member_views(self.members@)
    }

    /// Returns the minimum size of the uniform buffer in bytes.
    pub fn min_size(&self) -> (n: u64)
        ensures
            n == self.min_size_spec(),
            n > 0,
    {
        proof {
            use_type_invariant(self);
        }
        self.min_size
    }

    /// Returns the type of the member with the specified name, if it exists.
    pub fn member_type(&self, name: &str) -> (t: Option<UniformType>)
        ensures
            t == lookup_member(self.members(), name@),
    {
        find_member(&self.members, name)
    }

    /// The WGSL expression for the transform matrix: present when a member named
    /// `transform_matrix` has type `Mat4`.
    pub fn transform_matrix_expr(&self) -> (e: Option<String>)
        ensures
            e matches Some(s) ==> Some(s@) == transform_matrix_expr_spec(self.members()),
            e is None <==> transform_matrix_expr_spec(self.members()) is None,
    {
        match self.member_type("transform_matrix") {
            Some(UniformType::Mat4) => Some(String::from_str("uniforms.transform_matrix")),
            _ => None,
        }
    }

    /// The WGSL expression for a colour taken from a member named `color`: an RGBA vector
    /// built from a grey level (`F32`), a grey level and alpha (`F32x2`), an RGB colour
    /// (`F32x3`) or used as is (`F32x4`).
    pub fn uniform_color_expr(&self) -> (e: Option<String>)
        ensures
            e matches Some(s) ==> Some(s@) == uniform_color_expr_spec(self.members()),
            e is None <==> uniform_color_expr_spec(self.members()) is None,
    {
        match self.member_type("color") {
            Some(UniformType::F32) => Some(String::from_str("vec4(vec3(uniforms.color), 1.0)")),
            Some(UniformType::F32x2) => Some(String::from_str("vec4(vec3(uniforms.color.x), uniforms.color.y)")),
            Some(UniformType::F32x3) => Some(String::from_str("vec4(uniforms.color, 1.0)")),
            Some(UniformType::F32x4) => Some(String::from_str("uniforms.color")),
            _ => None,
        }
    }

    /// The WGSL declaration of a struct named `struct_name` with one field per member, in order.
    pub fn code_gen_uniform_struct(&self, struct_name: &str) -> (s: String)
        ensures
            s@ == uniform_struct_spec(struct_name@, self.members()),
    {
        let mut s = String::new();
        s.append("struct ");
        s.append(struct_name);
        s.append(" {\n");
        let ghost head = s@;
        let mut i: usize = 0;
        while i < self.members.len()
            invariant
                i <= self.members@.len(),
                head == "struct "@ + struct_name@ + " {\n"@,
                s@ == head + uniform_fields(self.members().take(i as int)),
            decreases self.members@.len() - i,
        {
            s.append("    ");
            s.append(self.members[i].name.as_str());
            s.append(": ");
            s.append(self.members[i].uniform_type.to_string());
            s.append(",\n");
            proof {
                let t = self.members().take(i + 1);
                assert(t.drop_last() =~= self.members().take(i as int));
                assert(t.last() == (self.members@[i as int].name@, self.members@[i as int].uniform_type));
                assert(s@ =~= head + uniform_fields(t));
            }
            i = i + 1;
        }
        s.append("}");
        assert(self.members().take(self.members@.len() as int) =~= self.members());
        s
    }
}

/// See [`DynamicUniformBuffer::transform_matrix_expr`].
pub open spec fn transform_matrix_expr_spec(members: Seq<(Seq<char>, UniformType)>) -> Option<Seq<char>> {
    match lookup_member(members, "transform_matrix"@) {
        Some(UniformType::Mat4) => Some("uniforms.transform_matrix"@),
        _ => None,
    }
}

/// See [`DynamicUniformBuffer::uniform_color_expr`].
pub open spec fn uniform_color_expr_spec(members: Seq<(Seq<char>, UniformType)>) -> Option<Seq<char>> {
    match lookup_member(members, "color"@) {
        Some(UniformType::F32) => Some("vec4(vec3(uniforms.color), 1.0)"@),
        Some(UniformType::F32x2) => Some("vec4(vec3(uniforms.color.x), uniforms.color.y)"@),
        Some(UniformType::F32x3) => Some("vec4(uniforms.color, 1.0)"@),
        Some(UniformType::F32x4) => Some("uniforms.color"@),
        _ => None,
    }
}

/// One line `    name: type,` per member, in order.
pub open spec fn uniform_fields(members: Seq<(Seq<char>, UniformType)>) -> Seq<char>
    decreases members.len(),
{
    if members.len() == 0 {
        Seq::empty()
    } else {
        uniform_fields(members.drop_last()) + "    "@ + members.last().0 + ": "@ + members.last().1.wgsl() + ",\n"@
    }
}

/// The WGSL declaration of a struct named `name` with the given members.
pub open spec fn uniform_struct_spec(name: Seq<char>, members: Seq<(Seq<char>, UniformType)>) -> Seq<char> {
    "struct "@ + name + " {\n"@ + uniform_fields(members) + "}"@
}

/// Looking a name up after a member was appended: an earlier member of that name still wins,
/// otherwise the appended member is found when it has that name.
pub proof fn lemma_lookup_after_push(
    members: Seq<(Seq<char>, UniformType)>, added: (Seq<char>, UniformType), name: Seq<char>,
)
    ensures
        lookup_member(members.push(added), name) == (
            if lookup_member(members, name) is Some {
                lookup_member(members, name)
            } else if added.0 == name {
                Some(added.1)
            } else {
                None
            }),
    decreases members.len(),
{
    let pushed = members.push(added);
    if members.len() > 0 {
        assert(pushed.drop_first() =~= members.drop_first().push(added));
        assert(pushed[0] == members[0]);
        lemma_lookup_after_push(members.drop_first(), added, name);
        assert(lookup_member(pushed, name) == (if pushed[0].0 == name { Some(pushed[0].1) } else { lookup_member(pushed.drop_first(), name) }));
    } else {
        assert(pushed[0] == added);
        assert(pushed.drop_first() =~= Seq::<(Seq<char>, UniformType)>::empty());
        assert(lookup_member(pushed.drop_first(), name) is None);
    }
}

/// A member added under a new name is then found under that name with the type it was added
/// with, and every other name is looked up as before.
pub proof fn lemma_member_type_after_with_member(
    members: Seq<(Seq<char>, UniformType)>, name: Seq<char>, t: UniformType, other: Seq<char>,
)
    requires
        lookup_member(members, name) is None,
    ensures
        lookup_member(members.push((name, t)), name) == Some(t),
        other != name ==> lookup_member(members.push((name, t)), other) == lookup_member(members, other),
{
    lemma_lookup_after_push(members, (name, t), name);
    lemma_lookup_after_push(members, (name, t), other);
}

} // verus!
