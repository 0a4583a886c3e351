use vstd::prelude::*;
use vstd::string::StringSliceAdditionalSpecFns;

verus! {

/// The byte that separates a file name from its extension.
pub const EXTENSION_SEPARATOR: u8 = 0x2e;

/// The pipeline stage a shader source is compiled for.
#[derive(Clone, Copy, Debug, PartialEq, Eq, Structural)]
pub enum ShaderStage {
    Vertex,
    Fragment,
    Compute,
}

/// Why a pipeline could not be built.
#[derive(Debug)]
pub enum PipelineErr {
    /// The shader compiler rejected a source; the text is its diagnostic.
    ShaderCompilation(String),
}

impl PipelineErr {
    /// The diagnostic this error carries.
    pub open spec fn spec_message(&self) -> Seq<char> {
        match self {
            PipelineErr::ShaderCompilation(m) => m@,
        }
    }

    /// The text shown to a user: the compiler's diagnostic, as it stands.
    pub fn message(&self) -> (r: String)
        ensures
            r@ == self.spec_message(),
    {
        match self {
            PipelineErr::ShaderCompilation(m) => m.clone(),
        }
    }
}

/// What follows the last separator of a path, or the whole path when it has
/// none.
pub open spec fn spec_extension(path: Seq<u8>) -> Seq<u8>
    decreases path.len(),
{
    if path.len() == 0 {
        path
    } else if path.last() == EXTENSION_SEPARATOR {
        Seq::empty()
    } else {
        spec_extension(path.drop_last()).push(path.last())
    }
}

/// Shader sources are told apart by extension: `vert`, `frag` and `comp`.
pub open spec fn spec_stage_for_extension(ext: Seq<u8>) -> Option<ShaderStage> {
    if ext == seq![0x76u8, 0x65u8, 0x72u8, 0x74u8] {
        Some(ShaderStage::Vertex)
    } else if ext == seq![0x66u8, 0x72u8, 0x61u8, 0x67u8] {
        Some(ShaderStage::Fragment)
    } else if ext == seq![0x63u8, 0x6fu8, 0x6du8, 0x70u8] {
        Some(ShaderStage::Compute)
    } else {
        None
    }
}

/// The stage of the shader in a source file, from its name alone.
pub open spec fn spec_shader_stage_of(source_file: &str) -> Option<ShaderStage> {
    spec_stage_for_extension(spec_extension(source_file.spec_bytes()))
}

proof fn lemma_extension_split(path: Seq<u8>, j: int)
    requires
        0 < j <= path.len(),
        path[j - 1] != EXTENSION_SEPARATOR,
    ensures
        spec_extension(path.subrange(0, j)) + path.subrange(j, path.len() as int)
            =~= spec_extension(path.subrange(0, j - 1)) + path.subrange(j - 1, path.len() as int),
{
    let prefix = path.subrange(0, j);
    assert(prefix.drop_last() =~= path.subrange(0, j - 1));
    assert(prefix.last() == path[j - 1]);
}

/// Whether `bytes[start..]` is exactly the four bytes given.
fn tail_is(bytes: &[u8], start: usize, word: [u8; 4]) -> (r: bool)
    requires
        start <= bytes@.len(),
    ensures
        r == (bytes@.subrange(start as int, bytes@.len() as int) == word@),
{
    let tail = Ghost(bytes@.subrange(start as int, bytes@.len() as int));
    if bytes.len() - start != 4 {
        assert(tail@.len() != word@.len());
        return false;
    }
    let same = bytes[start] == word[0] && bytes[start + 1] == word[1] && bytes[start + 2]
        == word[2] && bytes[start + 3] == word[3];
    if same {
        assert(tail@ =~= word@);
    } else {
        assert(tail@[0] != word@[0] || tail@[1] != word@[1] || tail@[2] != word@[2] || tail@[3]
            != word@[3]);
    }
    same
}

/// The stage a source file is compiled for, from the extension of its name;
/// `None` when the extension names no stage.
pub fn shader_stage_of(source_file: &str) -> (r: Option<ShaderStage>)
    ensures
        r == spec_shader_stage_of(source_file),
{
    let bytes = source_file.as_bytes();
    let mut j: usize = bytes.len();
    assert(bytes@.subrange(0, j as int) =~= bytes@);
    assert(bytes@.subrange(j as int, bytes@.len() as int) =~= Seq::<u8>::empty());
    while j > 0 && bytes[j - 1] != EXTENSION_SEPARATOR
        invariant
            j <= bytes@.len(),
            bytes@ == source_file.spec_bytes(),
            spec_extension(bytes@) == spec_extension(bytes@.subrange(0, j as int))
                + bytes@.subrange(j as int, bytes@.len() as int),
        decreases j,
    {
        proof {
            lemma_extension_split(bytes@, j as int);
        }
        j = j - 1;
    }
    proof {
        let prefix = bytes@.subrange(0, j as int);
        if j == 0 {
            assert(prefix.len() == 0);
        } else {
            assert(prefix.last() == bytes@[j - 1]);
        }
        assert(spec_extension(bytes@) =~= bytes@.subrange(j as int, bytes@.len() as int));
    }
    assert([0x76u8, 0x65u8, 0x72u8, 0x74u8]@ =~= seq![0x76u8, 0x65u8, 0x72u8, 0x74u8]);
    assert([0x66u8, 0x72u8, 0x61u8, 0x67u8]@ =~= seq![0x66u8, 0x72u8, 0x61u8, 0x67u8]);
    assert([0x63u8, 0x6fu8, 0x6du8, 0x70u8]@ =~= seq![0x63u8, 0x6fu8, 0x6du8, 0x70u8]);
    if tail_is(bytes, j, [0x76u8, 0x65u8, 0x72u8, 0x74u8]) {
        Some(ShaderStage::Vertex)
    } else if tail_is(bytes, j, [0x66u8, 0x72u8, 0x61u8, 0x67u8]) {
        Some(ShaderStage::Fragment)
    } else if tail_is(bytes, j, [0x63u8, 0x6fu8, 0x6du8, 0x70u8]) {
        Some(ShaderStage::Compute)
    } else {
        None
    }
}

/// A macro definition as text: its name and the value it expands to.
pub open spec fn spec_definition_view(d: (String, String)) -> (Seq<char>, Seq<char>) {
    (d.0@, d.1@)
}

/// The definitions every shader is compiled with: `EP`, the name of the
/// entry point, comes first, then the caller's own in their order.
pub open spec fn spec_macro_definitions(user: Seq<(String, String)>) -> Seq<(Seq<char>, Seq<char>)> {
    seq![("EP"@, "main"@)] + user.map_values(|d: (String, String)| spec_definition_view(d))
}

/// The macro definitions to compile a shader with, given the caller's.
pub fn macro_definitions(user: &Vec<(String, String)>) -> (r: Vec<(String, String)>)
    ensures
        r@.map_values(|d: (String, String)| spec_definition_view(d)) == spec_macro_definitions(
            user@,
        ),
{
    let mut r: Vec<(String, String)> = Vec::new();
    r.push(("EP".to_owned(), "main".to_owned()));
    let mut i: usize = 0;
    while i < user.len()
        invariant
            0 <= i <= user@.len(),
            r@.len() == i + 1,
            spec_definition_view(r@[0]) == ("EP"@, "main"@),
            forall|k: int|
                0 <= k < i ==> spec_definition_view(#[trigger] r@[k + 1]) == spec_definition_view(
                    user@[k],
                ),
        decreases user@.len() - i,
    {
        let (name, value) = &user[i];
        r.push((name.clone(), value.clone()));
        i = i + 1;
    }
    let ghost mapped = r@.map_values(|d: (String, String)| spec_definition_view(d));
    let ghost expected = spec_macro_definitions(user@);
    assert(mapped.len() == expected.len());
    assert forall|k: int| 0 <= k < mapped.len() implies mapped[k] == expected[k] by {
        if k > 0 {
            assert(r@[(k - 1) + 1] == r@[k]);
        }
    }
    assert(mapped =~= expected);
    r
}

} // verus!
