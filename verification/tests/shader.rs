use visualizer::shader::build_shader_sources;
use visualizer::shader::GlApi;

fn headers_and_bodies() -> (Vec<u8>, Vec<u8>, Vec<u8>, Vec<u8>) {
    let gl_header = b"#version 120\n".to_vec();
    let es_header = b"#version 100\nprecision mediump float;\n".to_vec();
    let vertex_body = b"void main() { gl_Position = vec4(0.0); }\n".to_vec();
    let fragment_body = b"void main() { gl_FragColor = vec4(1.0); }\n".to_vec();
    (gl_header, es_header, vertex_body, fragment_body)
}

#[test]
fn desktop_gl_uses_the_gl_header() {
    let (gl_header, es_header, vertex_body, fragment_body) = headers_and_bodies();
    let s = build_shader_sources(GlApi::OpenGl, &gl_header, &es_header, &vertex_body, &fragment_body);
    let mut expected_vertex = gl_header.clone();
    expected_vertex.extend_from_slice(&vertex_body);
    let mut expected_fragment = gl_header.clone();
    expected_fragment.extend_from_slice(&fragment_body);
    assert_eq!(s.vertex, expected_vertex);
    assert_eq!(s.fragment, expected_fragment);
}

#[test]
fn gles_uses_the_es_header() {
    let (gl_header, es_header, vertex_body, fragment_body) = headers_and_bodies();
    let s = build_shader_sources(GlApi::OpenGlEs, &gl_header, &es_header, &vertex_body, &fragment_body);
    let mut expected_vertex = es_header.clone();
    expected_vertex.extend_from_slice(&vertex_body);
    assert_eq!(s.vertex, expected_vertex);
}

#[test]
fn webgl_uses_the_es_header() {
    let (gl_header, es_header, vertex_body, fragment_body) = headers_and_bodies();
    let s = build_shader_sources(GlApi::WebGl, &gl_header, &es_header, &vertex_body, &fragment_body);
    let mut expected_fragment = es_header.clone();
    expected_fragment.extend_from_slice(&fragment_body);
    assert_eq!(s.fragment, expected_fragment);
}
