use shader_host::assembler::prepare_shader;
use shader_host::registry::{get_shader, ShaderRegistry};
use shader_host::session::RenderSession;
use shader_host::uniforms::{
    resolve, resolve_viewport, FrameUniforms, HostDefaults, ResolutionUniform, Uniforms, Viewport,
    UNIT_PIXEL_RATIO_MILLI,
};

const FRAGMENT: &str = "void render_image(out vec4 c, in vec2 p) { c = vec4(p, 0.0, 1.0); }";

fn count(haystack: &str, needle: &str) -> usize {
    haystack.matches(needle).count()
}

fn viewport_800x600() -> Viewport {
    Viewport { width: 800, height: 600, device_pixel_ratio_milli: Some(1000) }
}

#[test]
fn prepare_shader_is_deterministic() {
    let a = prepare_shader(FRAGMENT);
    let b = prepare_shader(FRAGMENT);
    let c = prepare_shader(FRAGMENT);
    assert_eq!(a, b);
    assert_eq!(b, c);
}

#[test]
fn prepare_shader_wraps_fragment() {
    let s = prepare_shader(FRAGMENT);
    assert!(s.contains(FRAGMENT));
    assert_eq!(count(&s, "uniform "), 3);
    assert_eq!(count(&s, "void main("), 1);
    assert!(s.starts_with("#version 300 es \nprecision mediump float;\n\n"));
    assert!(s.contains("uniform vec3 u_resolution;"));
    assert!(s.contains("uniform float\tu_time;"));
    assert!(s.contains("uniform int\tu_frame;"));
    assert!(s.contains("render_image(frag_color, vUv * u_resolution.xy);"));
    assert!(s.ends_with(");\n}"));
}

#[test]
fn prepare_shader_exact_text() {
    let s = prepare_shader("X");
    let expected = "#version 300 es \nprecision mediump float;\n\n\
uniform vec3 u_resolution; // image/buffer\tThe viewport resolution (z is pixel aspect ratio, usually 1.0)\n\
uniform float\tu_time; // image/sound/buffer\tCurrent time in seconds\n\
uniform int\tu_frame; // image/buffer\tCurrent frame\n\
X\nin vec2 vUv;\nout vec4 frag_color;\n\nvoid main() {\n    \
render_image(frag_color, vUv * u_resolution.xy);\n}";
    assert_eq!(s, expected);
}

#[test]
fn prepare_shader_of_empty_fragment() {
    let s = prepare_shader("");
    assert_eq!(count(&s, "uniform "), 3);
    assert_eq!(count(&s, "void main("), 1);
    assert!(s.contains("Current frame\n\nin vec2 vUv;"));
}

#[test]
fn registry_starts_empty() {
    let mut r = ShaderRegistry::new();
    assert!(!r.is_dirty());
    assert_eq!(get_shader(&r), None);
    assert_eq!(r.take_if_dirty(), None);
}

#[test]
fn registry_single_delivery() {
    let mut r = ShaderRegistry::new();
    r.submit(FRAGMENT);
    assert!(r.is_dirty());
    assert_eq!(r.take_if_dirty(), Some(prepare_shader(FRAGMENT)));
    assert!(!r.is_dirty());
    assert_eq!(r.take_if_dirty(), None);
}

#[test]
fn registry_last_write_wins() {
    let mut r = ShaderRegistry::new();
    r.submit("void render_image(out vec4 c, in vec2 p) { c = vec4(1.0); }");
    r.submit(FRAGMENT);
    let taken = r.take_if_dirty();
    assert_eq!(taken, Some(prepare_shader(FRAGMENT)));
    assert_ne!(
        taken,
        Some(prepare_shader("void render_image(out vec4 c, in vec2 p) { c = vec4(1.0); }"))
    );
    assert_eq!(r.take_if_dirty(), None);
}

#[test]
fn get_shader_does_not_consume() {
    let mut r = ShaderRegistry::new();
    r.submit(FRAGMENT);
    assert_eq!(get_shader(&r), Some(prepare_shader(FRAGMENT)));
    assert!(r.is_dirty());
    assert_eq!(r.take_if_dirty(), Some(prepare_shader(FRAGMENT)));
    assert_eq!(get_shader(&r), Some(prepare_shader(FRAGMENT)));
}

#[test]
fn initial_shader_falls_back_to_default() {
    let mut r = ShaderRegistry::new();
    assert_eq!(r.initial_shader("DEFAULT"), prepare_shader("DEFAULT"));
    assert_eq!(r.take_if_dirty(), None);
}

#[test]
fn initial_shader_prefers_submission() {
    let mut r = ShaderRegistry::new();
    r.submit(FRAGMENT);
    assert_eq!(r.initial_shader("DEFAULT"), prepare_shader(FRAGMENT));
    assert_eq!(r.take_if_dirty(), None);
}

#[test]
fn resolve_override_precedence_all_combinations() {
    let defaults = HostDefaults { elapsed_us: 2_500_000, frame_count: 150, viewport: viewport_800x600() };
    let pinned_res = ResolutionUniform { width: 64, height: 32, pixel_aspect_ratio_milli: 2000 };
    let host_res = ResolutionUniform { width: 800, height: 600, pixel_aspect_ratio_milli: 1000 };
    for mask in 0u32..8 {
        let o = Uniforms {
            resolution: if mask & 1 != 0 { Some(pinned_res) } else { None },
            time_us: if mask & 2 != 0 { Some(7_000) } else { None },
            frame: if mask & 4 != 0 { Some(9) } else { None },
        };
        let r = resolve(&defaults, &o);
        assert_eq!(r.resolution, if mask & 1 != 0 { pinned_res } else { host_res });
        assert_eq!(r.time_us, if mask & 2 != 0 { 7_000 } else { 2_500_000 });
        assert_eq!(r.frame, if mask & 4 != 0 { 9 } else { 150 });
    }
}

#[test]
fn resolve_without_pixel_ratio_uses_unit() {
    let v = Viewport { width: 320, height: 200, device_pixel_ratio_milli: None };
    let r = resolve_viewport(&v);
    assert_eq!(r, ResolutionUniform { width: 320, height: 200, pixel_aspect_ratio_milli: 1000 });
    assert_eq!(UNIT_PIXEL_RATIO_MILLI, 1000);
    let v2 = Viewport { width: 320, height: 200, device_pixel_ratio_milli: Some(2625) };
    assert_eq!(resolve_viewport(&v2).pixel_aspect_ratio_milli, 2625);
}

#[test]
fn time_resumes_after_release() {
    let pinned = Uniforms { resolution: None, time_us: Some(1_000_000), frame: None };
    let mut s = RenderSession::new(1u32, pinned);
    let first = s.tick(5_000_000, viewport_800x600());
    assert_eq!(first.time_us, 1_000_000);
    s.set_overrides(Uniforms::none());
    let second = s.tick(5_016_000, viewport_800x600());
    assert_eq!(second.time_us, 5_016_000);
    assert_eq!(second.frame, 1);
}

#[test]
fn frames_advance_by_one() {
    let mut s = RenderSession::new(1u32, Uniforms::none());
    for k in 0u64..10 {
        let u = s.tick(k * 16_000, viewport_800x600());
        assert_eq!(u.frame, k);
        assert_eq!(s.frame_count(), k + 1);
    }
}

#[test]
fn pinned_frame_is_used_and_counter_still_advances() {
    let pinned = Uniforms { resolution: None, time_us: None, frame: Some(42) };
    let mut s = RenderSession::new(1u32, pinned);
    assert_eq!(s.tick(0, viewport_800x600()).frame, 42);
    assert_eq!(s.tick(16_000, viewport_800x600()).frame, 42);
    assert_eq!(s.frame_count(), 2);
    assert_eq!(s.overrides(), pinned);
}

#[test]
fn failed_reload_keeps_program() {
    let mut registry = ShaderRegistry::new();
    let initial = registry.initial_shader(FRAGMENT);
    assert_eq!(initial, prepare_shader(FRAGMENT));
    let mut s: RenderSession<u32> = RenderSession::new(1, Uniforms::none());
    registry.submit("this does not compile");
    let pending = registry.take_if_dirty();
    assert_eq!(pending, Some(prepare_shader("this does not compile")));
    let outcome: Result<u32, String> = Err(String::from("compile error"));
    assert_eq!(s.install_reload(outcome), None);
    assert_eq!(*s.program(), 1);
    s.tick(0, viewport_800x600());
    assert_eq!(*s.program(), 1);
    assert_eq!(registry.take_if_dirty(), None);
}

#[test]
fn successful_reload_replaces_program() {
    let mut s: RenderSession<u32> = RenderSession::new(1, Uniforms::none());
    s.tick(0, viewport_800x600());
    let outcome: Result<u32, String> = Ok(2);
    assert_eq!(s.install_reload(outcome), Some(1));
    assert_eq!(*s.program(), 2);
    assert_eq!(s.frame_count(), 1);
}

#[test]
fn end_to_end_two_ticks() {
    let mut s = RenderSession::new(1u32, Uniforms::none());
    let res = ResolutionUniform { width: 800, height: 600, pixel_aspect_ratio_milli: 1000 };
    let a = s.tick(0, viewport_800x600());
    let b = s.tick(16_000, viewport_800x600());
    assert_eq!(a, FrameUniforms { resolution: res, time_us: 0, frame: 0 });
    assert_eq!(b, FrameUniforms { resolution: res, time_us: 16_000, frame: 1 });
}
