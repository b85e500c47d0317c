use gpu_image::binding::Stage;
use gpu_image::frame::FrameState;
use gpu_image::test_shader::TestShader;
use gpu_image::util::{timed, Size, SizeF, Tof32, Tou32};

fn cycle(rebuild: bool) -> Vec<FrameState> {
    let mut states = vec![FrameState::Idle];
    loop {
        let next = states[states.len() - 1].next(rebuild);
        states.push(next);
        if next == FrameState::Idle {
            return states;
        }
    }
}

#[test]
fn frame_without_rebuild_takes_eight_steps() {
    assert_eq!(
        cycle(false),
        vec![
            FrameState::Idle,
            FrameState::ResizeCheck,
            FrameState::Pack,
            FrameState::Encode(Stage::Demosaic),
            FrameState::Encode(Stage::Downsample),
            FrameState::Encode(Stage::Processing),
            FrameState::Encode(Stage::Composite),
            FrameState::Submit,
            FrameState::Idle,
        ]
    );
}

#[test]
fn frame_with_rebuild_rebuilds_before_packing() {
    assert_eq!(
        cycle(true),
        vec![
            FrameState::Idle,
            FrameState::ResizeCheck,
            FrameState::Rebuild,
            FrameState::Pack,
            FrameState::Encode(Stage::Demosaic),
            FrameState::Encode(Stage::Downsample),
            FrameState::Encode(Stage::Processing),
            FrameState::Encode(Stage::Composite),
            FrameState::Submit,
            FrameState::Idle,
        ]
    );
}

#[test]
fn rebuild_is_entered_only_from_the_resize_check() {
    let all = [
        FrameState::Idle,
        FrameState::ResizeCheck,
        FrameState::Rebuild,
        FrameState::Pack,
        FrameState::Encode(Stage::Demosaic),
        FrameState::Encode(Stage::Downsample),
        FrameState::Encode(Stage::Processing),
        FrameState::Encode(Stage::Composite),
        FrameState::Submit,
    ];
    for state in all {
        for rebuild in [false, true] {
            let entered = state.next(rebuild) == FrameState::Rebuild;
            assert_eq!(entered, state == FrameState::ResizeCheck && rebuild);
        }
    }
}

#[test]
fn test_shader_remembers_the_path() {
    let mut shader = TestShader::default();
    assert_eq!(shader.image_path, "");
    shader.load_image("assets/IMG_7679.jpg");
    assert_eq!(shader.image_path, "assets/IMG_7679.jpg");
    shader.load_image("other.CR2");
    assert_eq!(shader.image_path, "other.CR2");
    assert_eq!(shader.clone(), shader);
}

#[test]
fn timed_hands_back_what_the_work_returned() {
    assert_eq!(timed("sum", || 2 + 3), 5);
    let text = String::from("kept");
    assert_eq!(timed("move", move || text), "kept");
}

#[test]
fn sizes_convert_to_single_precision() {
    let size = Size::new(1024, 768).to_f32();
    assert_eq!(size, SizeF { width: 1024.0f32.to_bits(), height: 768.0f32.to_bits() });
    let large = Size::new(16_777_217, u32::MAX).to_f32();
    assert_eq!(
        large,
        SizeF { width: (16_777_217u32 as f32).to_bits(), height: (u32::MAX as f32).to_bits() }
    );
    assert_eq!(Size::new(0, 1).to_f32(), SizeF { width: 0, height: 0x3f80_0000 });
}

#[test]
fn sizes_round_to_whole_texels() {
    let size = SizeF { width: 1023.5f32.to_bits(), height: 767.49f32.to_bits() }.to_u32();
    assert_eq!(size, Size::new(1024, 767));
    let odd = SizeF { width: (-5.0f32).to_bits(), height: f32::NAN.to_bits() }.to_u32();
    assert_eq!(odd, Size::new(0, 0));
    let huge = SizeF { width: 1e20f32.to_bits(), height: 0.5f32.to_bits() }.to_u32();
    assert_eq!(huge, Size::new(u32::MAX, 1));
}
