//! Assembly of the shader sources.
//!
//! Each shader is the concatenation of a dialect-specific header with a
//! shared body: the desktop GL header for plain OpenGL, the GL-ES header
//! for OpenGL ES and WebGL. The bytes of the headers and bodies are
//! embedded by the unverified shell; this module pins down exactly which
//! header is chosen and how the sources are put together. Compiling the
//! assembled sources into a pipeline is the shell's work.

use vstd::prelude::*;

verus! {

/// The GPU API dialect the window was opened with.
#[derive(Clone, Copy, Debug, PartialEq, Eq, Structural)]
pub enum GlApi {
    OpenGl,
    OpenGlEs,
    WebGl,
}

/// Says whether the GL-ES header is chosen for the given dialect; otherwise
/// the desktop GL header is.
pub open spec fn es_header_chosen(api: GlApi) -> bool {
    match api {
        GlApi::OpenGl => false,
        GlApi::OpenGlEs => true,
        GlApi::WebGl => true,
    }
}

/// The header that precedes both shader bodies under the given dialect.
pub open spec fn chosen_header(api: GlApi, gl_header: Seq<u8>, es_header: Seq<u8>) -> Seq<u8> {
    if es_header_chosen(api) {
        es_header
    } else {
        gl_header
    }
}

/// The assembled vertex and fragment shader sources.
#[derive(Debug)]
pub struct ShaderSources {
    pub vertex: Vec<u8>,
    pub fragment: Vec<u8>,
}

/// Concatenates two byte strings.
fn concat_bytes(head: &Vec<u8>, tail: &Vec<u8>) -> (out: Vec<u8>)
    ensures
        out@ == head@ + tail@,
{
    let mut out: Vec<u8> = Vec::new();
    let mut i: usize = 0;
    while i < head.len()
        invariant
            i <= head.len(),
            out@ == head@.subrange(0, i as int),
        decreases head.len() - i,
    {
        out.push(head[i]);
        proof {
            assert(out@ =~= head@.subrange(0, i as int + 1));
        }
        i = i + 1;
    }
    proof {
        assert(out@ =~= head@);
    }
    let mut j: usize = 0;
    while j < tail.len()
        invariant
            j <= tail.len(),
            out@ == head@ + tail@.subrange(0, j as int),
        decreases tail.len() - j,
    {
        out.push(tail[j]);
        proof {
            assert(out@ =~= head@ + tail@.subrange(0, j as int + 1));
        }
        j = j + 1;
    }
    proof {
        assert(out@ =~= head@ + tail@);
    }
    out
}

/// Assembles the vertex and fragment shader sources for the given dialect:
/// each is exactly the chosen header followed by its body.
pub fn build_shader_sources(
    api: GlApi,
    gl_header: &Vec<u8>,
    es_header: &Vec<u8>,
    vertex_body: &Vec<u8>,
    fragment_body: &Vec<u8>,
) -> (s: ShaderSources)
    ensures
        s.vertex@ == chosen_header(api, gl_header@, es_header@) + vertex_body@,
        s.fragment@ == chosen_header(api, gl_header@, es_header@) + fragment_body@,
{
    let header: &Vec<u8> = match api {
        GlApi::OpenGl => gl_header,
        GlApi::OpenGlEs => es_header,
        GlApi::WebGl => es_header,
    };
    let vertex = concat_bytes(header, vertex_body);
    let fragment = concat_bytes(header, fragment_body);
    ShaderSources { vertex, fragment }
}

} // verus!
