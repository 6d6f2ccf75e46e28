use gfx_device::gfx::pipeline::{
    BlendFactor, BlendMode, BlendOperation, ColorMask, CompareMode, CullMode, DepthStencil,
    PipelineOptions, StencilAction, StencilOptions,
};
use gfx_device::gfx_backend::gl;
use gfx_device::gfx_backend::gl::GlCall;
use gfx_device::gfx_backend::pipeline::{
    set_blend_mode, set_color_mask, set_culling, set_depth_stencil, set_stencil,
    should_disable_stencil,
};
use gfx_device::gfx_backend::to_gl::{ToGl, ToOptionalGl};

fn stencil(options: &PipelineOptions) -> Vec<GlCall> {
    let mut calls = Vec::new();
    set_stencil(options, &mut calls);
    calls
}

fn blend(options: &PipelineOptions) -> Vec<GlCall> {
    let mut calls = Vec::new();
    set_blend_mode(options, &mut calls);
    calls
}

#[test]
fn idle_stencil_disables_the_test() {
    let mut options = PipelineOptions::default();
    options.stencil = Some(StencilOptions {
        stencil_fail: StencilAction::Keep,
        depth_fail: StencilAction::Keep,
        pass: StencilAction::Keep,
        compare: CompareMode::Always,
        read_mask: 0xff,
        write_mask: 0xff,
        reference: 7,
    });
    assert!(should_disable_stencil(&options.stencil));
    assert_eq!(stencil(&options), vec![GlCall::Disable { cap: gl::STENCIL_TEST }]);
}

#[test]
fn no_stencil_disables_the_test() {
    let options = PipelineOptions::default();
    assert!(should_disable_stencil(&None));
    assert_eq!(stencil(&options), vec![GlCall::Disable { cap: gl::STENCIL_TEST }]);
}

#[test]
fn any_active_stencil_field_enables_the_test() {
    let idle = StencilOptions::default();
    assert!(should_disable_stencil(&Some(idle)));
    assert!(!should_disable_stencil(&Some(StencilOptions { compare: CompareMode::Equal, ..idle })));
    assert!(!should_disable_stencil(&Some(StencilOptions {
        stencil_fail: StencilAction::Zero,
        ..idle
    })));
    assert!(!should_disable_stencil(&Some(StencilOptions {
        depth_fail: StencilAction::Invert,
        ..idle
    })));
    assert!(!should_disable_stencil(&Some(StencilOptions {
        pass: StencilAction::Replace,
        ..idle
    })));
}

#[test]
fn active_stencil_applies_mask_ops_and_function() {
    let mut options = PipelineOptions::default();
    options.stencil = Some(StencilOptions {
        stencil_fail: StencilAction::Keep,
        depth_fail: StencilAction::IncrementWrap,
        pass: StencilAction::Replace,
        compare: CompareMode::Equal,
        read_mask: 0x0f,
        write_mask: 0xf0,
        reference: 3,
    });
    assert_eq!(
        stencil(&options),
        vec![
            GlCall::Enable { cap: gl::STENCIL_TEST },
            GlCall::StencilMask { mask: 0xf0 },
            GlCall::StencilOp { fail: gl::KEEP, zfail: gl::INCR_WRAP, zpass: gl::REPLACE },
            GlCall::StencilFunc { func: gl::EQUAL, reference: 3, mask: 0x0f },
        ]
    );
}

#[test]
fn stencil_without_compare_mode_always_passes() {
    let mut options = PipelineOptions::default();
    options.stencil = Some(StencilOptions {
        pass: StencilAction::Replace,
        compare: CompareMode::Disabled,
        ..StencilOptions::default()
    });
    let calls = stencil(&options);
    assert_eq!(calls[3], GlCall::StencilFunc { func: gl::ALWAYS, reference: 0, mask: 0xff });
}

#[test]
fn color_blend_alone_sets_both_channels_at_once() {
    let mut options = PipelineOptions::default();
    options.color_blend = Some(BlendMode::normal());
    assert_eq!(
        blend(&options),
        vec![
            GlCall::Enable { cap: gl::BLEND },
            GlCall::BlendFunc { sfactor: gl::SRC_ALPHA, dfactor: gl::ONE_MINUS_SRC_ALPHA },
            GlCall::BlendEquation { mode: gl::FUNC_ADD },
        ]
    );
}

#[test]
fn color_and_alpha_blend_go_through_the_separate_calls() {
    let mut options = PipelineOptions::default();
    options.color_blend = Some(BlendMode::add());
    options.alpha_blend =
        Some(BlendMode::new(BlendFactor::Zero, BlendFactor::One, BlendOperation::Max));
    assert_eq!(
        blend(&options),
        vec![
            GlCall::Enable { cap: gl::BLEND },
            GlCall::BlendFuncSeparate {
                src_rgb: gl::ONE,
                dst_rgb: gl::ONE,
                src_alpha: gl::ZERO,
                dst_alpha: gl::ONE
            },
            GlCall::BlendEquationSeparate { mode_rgb: gl::FUNC_ADD, mode_alpha: gl::MAX },
        ]
    );
}

#[test]
fn alpha_blend_alone_pairs_with_normal_color_blending() {
    let mut options = PipelineOptions::default();
    options.alpha_blend = Some(BlendMode::over());
    assert_eq!(
        blend(&options),
        vec![
            GlCall::Enable { cap: gl::BLEND },
            GlCall::BlendFuncSeparate {
                src_rgb: gl::SRC_ALPHA,
                dst_rgb: gl::ONE_MINUS_SRC_ALPHA,
                src_alpha: gl::ONE,
                dst_alpha: gl::ONE_MINUS_SRC_ALPHA
            },
            GlCall::BlendEquationSeparate { mode_rgb: gl::FUNC_ADD, mode_alpha: gl::FUNC_ADD },
        ]
    );
}

#[test]
fn no_blend_mode_disables_blending() {
    assert_eq!(blend(&PipelineOptions::default()), vec![GlCall::Disable { cap: gl::BLEND }]);
}

#[test]
fn depth_test_follows_the_compare_mode() {
    let mut options = PipelineOptions::default();
    options.depth_stencil = DepthStencil { write: true, compare: CompareMode::Less };
    let mut calls = Vec::new();
    set_depth_stencil(&options, &mut calls);
    assert_eq!(
        calls,
        vec![
            GlCall::Enable { cap: gl::DEPTH_TEST },
            GlCall::DepthFunc { func: gl::LESS },
            GlCall::DepthMask { flag: true },
        ]
    );
}

#[test]
fn depth_mask_is_applied_when_the_test_is_off() {
    let mut options = PipelineOptions::default();
    options.depth_stencil = DepthStencil { write: false, compare: CompareMode::Disabled };
    let mut calls = Vec::new();
    set_depth_stencil(&options, &mut calls);
    assert_eq!(
        calls,
        vec![GlCall::Disable { cap: gl::DEPTH_TEST }, GlCall::DepthMask { flag: false }]
    );
}

#[test]
fn color_mask_is_always_applied() {
    let mut options = PipelineOptions::default();
    options.color_mask = ColorMask { r: true, g: false, b: true, a: false };
    let mut calls = Vec::new();
    set_color_mask(&options, &mut calls);
    assert_eq!(calls, vec![GlCall::ColorMask { r: true, g: false, b: true, a: false }]);
}

#[test]
fn culling_follows_the_cull_mode() {
    let mut options = PipelineOptions::default();
    let mut calls = Vec::new();
    set_culling(&options, &mut calls);
    assert_eq!(calls, vec![GlCall::Disable { cap: gl::CULL_FACE }]);

    options.cull_mode = CullMode::Back;
    let mut calls = Vec::new();
    set_culling(&options, &mut calls);
    assert_eq!(
        calls,
        vec![GlCall::Enable { cap: gl::CULL_FACE }, GlCall::CullFace { mode: gl::BACK }]
    );
}

#[test]
fn state_calls_append_to_what_is_there() {
    let mut calls = vec![GlCall::UseProgram { program: 9 }];
    set_culling(&PipelineOptions::default(), &mut calls);
    assert_eq!(
        calls,
        vec![GlCall::UseProgram { program: 9 }, GlCall::Disable { cap: gl::CULL_FACE }]
    );
}

#[test]
fn native_constants_of_the_enums() {
    assert_eq!(StencilAction::Keep.to_gl(), 0x1E00);
    assert_eq!(StencilAction::Zero.to_gl(), 0);
    assert_eq!(StencilAction::Replace.to_gl(), 0x1E01);
    assert_eq!(StencilAction::Increment.to_gl(), 0x1E02);
    assert_eq!(StencilAction::IncrementWrap.to_gl(), 0x8507);
    assert_eq!(StencilAction::Decrement.to_gl(), 0x1E03);
    assert_eq!(StencilAction::DecrementWrap.to_gl(), 0x8508);
    assert_eq!(StencilAction::Invert.to_gl(), 0x150A);
    assert_eq!(BlendOperation::Add.to_gl(), 0x8006);
    assert_eq!(BlendOperation::Subtract.to_gl(), 0x800A);
    assert_eq!(BlendOperation::ReverseSubtract.to_gl(), 0x800B);
    assert_eq!(BlendOperation::Max.to_gl(), 0x8008);
    assert_eq!(BlendOperation::Min.to_gl(), 0x8007);
    assert_eq!(BlendFactor::Zero.to_gl(), 0);
    assert_eq!(BlendFactor::One.to_gl(), 1);
    assert_eq!(BlendFactor::SourceAlpha.to_gl(), 0x0302);
    assert_eq!(BlendFactor::SourceColor.to_gl(), 0x0300);
    assert_eq!(BlendFactor::InverseSourceAlpha.to_gl(), 0x0303);
    assert_eq!(BlendFactor::InverseSourceColor.to_gl(), 0x0301);
    assert_eq!(BlendFactor::DestinationAlpha.to_gl(), 0x0304);
    assert_eq!(BlendFactor::DestinationColor.to_gl(), 0x0306);
    assert_eq!(BlendFactor::InverseDestinationAlpha.to_gl(), 0x0305);
    assert_eq!(BlendFactor::InverseDestinationColor.to_gl(), 0x0307);
    assert_eq!(CompareMode::Disabled.to_gl(), None);
    assert_eq!(CompareMode::Less.to_gl(), Some(0x0201));
    assert_eq!(CompareMode::Equal.to_gl(), Some(0x0202));
    assert_eq!(CompareMode::LEqual.to_gl(), Some(0x0203));
    assert_eq!(CompareMode::Greater.to_gl(), Some(0x0204));
    assert_eq!(CompareMode::NotEqual.to_gl(), Some(0x0205));
    assert_eq!(CompareMode::GEqual.to_gl(), Some(0x0206));
    assert_eq!(CompareMode::Always.to_gl(), Some(0x0207));
    assert_eq!(CullMode::Disabled.to_gl(), None);
    assert_eq!(CullMode::Front.to_gl(), Some(0x0404));
    assert_eq!(CullMode::Back.to_gl(), Some(0x0405));
}

#[test]
fn no_two_blend_factors_share_a_constant() {
    let factors = [
        BlendFactor::Zero,
        BlendFactor::One,
        BlendFactor::SourceAlpha,
        BlendFactor::SourceColor,
        BlendFactor::InverseSourceAlpha,
        BlendFactor::InverseSourceColor,
        BlendFactor::DestinationAlpha,
        BlendFactor::DestinationColor,
        BlendFactor::InverseDestinationAlpha,
        BlendFactor::InverseDestinationColor,
    ];
    for (i, first) in factors.iter().enumerate() {
        for second in &factors[i + 1..] {
            assert_ne!(first.to_gl(), second.to_gl());
        }
    }
}

#[test]
fn multiply_blending_weights_the_source_with_the_destination_color() {
    let mut options = PipelineOptions::default();
    options.color_blend = Some(BlendMode::multiply());
    assert_eq!(
        blend(&options),
        vec![
            GlCall::Enable { cap: gl::BLEND },
            GlCall::BlendFunc { sfactor: gl::DST_COLOR, dfactor: gl::ONE_MINUS_SRC_ALPHA },
            GlCall::BlendEquation { mode: gl::FUNC_ADD },
        ]
    );
}
