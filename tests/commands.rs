use pica_cmd::gpucmd::alpha::{Blend, Equation, Factor, Function, Test};
use pica_cmd::gpucmd::chain::{Chain, ChainError};
use pica_cmd::gpucmd::depth_color_mask::{self, DepthColorMask};
use pica_cmd::gpucmd::depth_map::{EnabledScaleOffset, Enabled};
use pica_cmd::gpucmd::logic_op::LogicOp;
use pica_cmd::gpucmd::shader_outmap::{reset, Clock, UseTextureCoordinates};
use pica_cmd::gpucmd::texenv::{
    all_defaults, combiner_both, default_for, source_both, AlphaOp, Color, ColorOp, CombineMode,
    Operand, Source, E0, E1,
};
use pica_cmd::gpucmd::transfer::Transfer;
use pica_cmd::gpucmd::{extra_params, mask, CommandEncoder, GpuCmd, GpuCmdByMut, CONSECUTIVE_WRITING};

const TEXENV0: u32 = 0xC0;

fn operand_e0() -> Operand<E0> {
    Operand::<E0> {
        rgb: (ColorOp::SourceColor, ColorOp::SourceColor, ColorOp::SourceColor),
        alpha: (AlphaOp::SourceAlpha, AlphaOp::SourceAlpha, AlphaOp::SourceAlpha),
        te: E0,
    }
}

#[test]
fn mask_and_extra_params_fields() {
    assert_eq!(mask(0xF), 0x000F_0000);
    assert_eq!(mask(0x1F), 0x000F_0000);
    assert_eq!(extra_params(255), 0x0FF0_0000);
    assert_eq!(extra_params(256), 0);
    assert_eq!(CONSECUTIVE_WRITING, 0x8000_0000);
}

#[test]
fn blend_alpha_over() {
    let b = Blend::new(
        Equation::Add,
        Equation::Add,
        Factor::SrcAlpha,
        Factor::OneMinusSrcAlpha,
        Factor::SrcAlpha,
        Factor::OneMinusSrcAlpha,
    );
    let w = b.cmd();
    assert_eq!(w, vec![0x7676_0000, 0x000F_0101]);
    assert_eq!(w[0].to_le_bytes(), [0, 0, 6 | (7 << 4), 6 | (7 << 4)]);
}

#[test]
fn blend_fields_land_in_their_bytes() {
    let b = Blend::new(
        Equation::Max,
        Equation::ReverseSubtract,
        Factor::One,
        Factor::SaturatedAlpha,
        Factor::DstColor,
        Factor::ConstantAlpha,
    );
    assert_eq!(b.cmd()[0].to_le_bytes(), [4, 2, 1 | (14 << 4), 4 | (12 << 4)]);
}

#[test]
fn alpha_test_words() {
    let t = Test { enabled: true, function: Function::GreaterThan, reference_value: 0x80 };
    assert_eq!(t.cmd(), vec![(6 << 4) | (0x80 << 8), 0x000F_0104]);
    assert_eq!(Test::disabled().cmd(), vec![1 | (1 << 4), 0x000F_0104]);
}

#[test]
fn chain_of_three_consecutive_writes() {
    let src = source_both::<E0>(Source::Previous, Source::Previous, Source::Previous);
    let chain = Chain::start(src)
        .link(operand_e0())
        .unwrap()
        .link(combiner_both::<E0>(CombineMode::Modulate))
        .unwrap();
    let mut buf = Vec::new();
    chain.cmd_by_mut(&mut buf);
    let header = TEXENV0 | 0x000F_0000 | (2 << 20) | 0x8000_0000;
    assert_eq!(buf, vec![0x0FFF_0FFF, header, 0, 1 | (1 << 16)]);
    assert_eq!(buf.len() % 2, 0);
}

#[test]
fn chain_of_four_is_padded() {
    let src = source_both::<E0>(Source::Texture0, Source::PrimaryColor, Source::Constant);
    let chain = Chain::start(src)
        .link(operand_e0())
        .unwrap()
        .link(combiner_both::<E0>(CombineMode::Replace))
        .unwrap()
        .link(Color::<E0>(0x1122_3344, E0))
        .unwrap();
    let mut buf = Vec::new();
    chain.cmd_by_mut(&mut buf);
    let header = TEXENV0 | 0x000F_0000 | (3 << 20) | 0x8000_0000;
    let src_param = 3 | (0 << 4) | (14 << 8) | (3 << 16) | (0 << 20) | (14 << 24);
    assert_eq!(buf, vec![src_param, header, 0, 0, 0x1122_3344, 0]);
}

#[test]
fn chain_of_one_is_a_plain_write() {
    let src = source_both::<E0>(Source::Previous, Source::Previous, Source::Previous);
    let mut buf = Vec::new();
    Chain::start(src).cmd_by_mut(&mut buf);
    assert_eq!(buf, vec![0x0FFF_0FFF, TEXENV0 | 0x000F_0000]);
}

#[test]
fn chain_refuses_a_gap() {
    let src = source_both::<E0>(Source::Previous, Source::Previous, Source::Previous);
    let r = Chain::start(src).link(combiner_both::<E0>(CombineMode::Replace));
    assert!(matches!(r, Err(ChainError::NotConsecutive)));
    let r = Chain::start(source_both::<E0>(Source::Previous, Source::Previous, Source::Previous))
        .link(operand_e0())
        .unwrap()
        .link(Color::<E0>(0, E0));
    assert!(matches!(r, Err(ChainError::NotConsecutive)));
}

#[test]
fn texenv_defaults() {
    let mut buf = Vec::new();
    default_for::<E1>().cmd_by_mut(&mut buf);
    assert_eq!(buf, vec![0x0FFF_0FFF, 0xC8 | 0x000F_0000 | (4 << 20) | 0x8000_0000, 0, 0, 0, 0]);
    let mut all = Vec::new();
    all_defaults().cmd_by_mut(&mut all);
    assert_eq!(all.len(), 36);
    let bases = [0xC0u32, 0xC8, 0xD0, 0xD8, 0xF0, 0xF8];
    for (k, base) in bases.iter().enumerate() {
        assert_eq!(all[6 * k + 1], base | 0x000F_0000 | (4 << 20) | 0x8000_0000);
    }
}

fn ramp(n: u32) -> Vec<u32> {
    (0..n).map(|x| x + 1).collect()
}

#[test]
fn transfer_of_300_words() {
    let reg = 0x02CC | 0x000F_0000;
    let data = ramp(300);
    let mut buf = Vec::new();
    Transfer { reg, data: data.clone() }.cmd_by_mut(&mut buf);
    let mut expected = vec![data[0], reg | (255 << 20)];
    expected.extend_from_slice(&data[1..256]);
    expected.push(0);
    expected.push(data[256]);
    expected.push(reg | (43 << 20));
    expected.extend_from_slice(&data[257..300]);
    expected.push(0);
    assert_eq!(buf.len(), 258 + 46);
    assert_eq!(buf, expected);
}

#[test]
fn transfer_small_payloads() {
    let reg = 0x02CC | 0x000F_0000;
    let mut buf = Vec::new();
    Transfer { reg, data: vec![] }.cmd_by_mut(&mut buf);
    assert!(buf.is_empty());
    Transfer { reg, data: vec![7] }.cmd_by_mut(&mut buf);
    assert_eq!(buf, vec![7, reg]);
    buf.clear();
    Transfer { reg, data: vec![7, 8] }.cmd_by_mut(&mut buf);
    assert_eq!(buf, vec![7, reg | (1 << 20), 8, 0]);
    buf.clear();
    Transfer { reg, data: vec![7, 8, 9] }.cmd_by_mut(&mut buf);
    assert_eq!(buf, vec![7, reg | (2 << 20), 8, 9]);
}

#[test]
fn transfer_of_exactly_256_and_512_words() {
    let reg = 0x02D6 | 0x000F_0000;
    let mut buf = Vec::new();
    Transfer { reg, data: ramp(256) }.cmd_by_mut(&mut buf);
    assert_eq!(buf.len(), 258);
    assert_eq!(buf[1], reg | (255 << 20));
    assert_eq!(buf[257], 0);
    buf.clear();
    Transfer { reg, data: ramp(512) }.cmd_by_mut(&mut buf);
    assert_eq!(buf.len(), 516);
    assert_eq!(buf[258], 257);
    assert_eq!(buf[259], reg | (255 << 20));
}

#[test]
fn encoder_keeps_call_order_and_finishes() {
    let enc = CommandEncoder::new()
        .add(LogicOp::Xor)
        .sub(Enabled)
        .add(Enabled)
        .sub(UseTextureCoordinates);
    assert_eq!(
        enc.words(),
        &[11, 0x000F_0102, 0, 0x000F_006D, 1, 0x000F_006D, 0, 0x000F_0064][..]
    );
    let buf = enc.finish();
    assert_eq!(buf.buf.len(), 10);
    assert_eq!(&buf.buf[8..], &[0x1234_5678, 0x000F_0010]);
}

#[test]
fn encoder_add_assign_and_capacity() {
    let mut enc = CommandEncoder::new_with_capacity(64);
    assert!(enc.words().is_empty());
    enc.add_assign(LogicOp::SetOnes);
    assert_eq!(enc.words(), &[4, 0x000F_0102][..]);
}

#[test]
fn depth_commands() {
    let m = DepthColorMask {
        enabled: true,
        function: depth_color_mask::Function::LessThan,
        red_write: true,
        green_write: true,
        blue_write: true,
        alpha_write: false,
        depth_write: true,
    };
    assert_eq!(m.cmd(), vec![1 | (4 << 4) | 0x100 | 0x200 | 0x400 | 0x1000, 0x000F_0107]);
    let mut buf = Vec::new();
    EnabledScaleOffset(0x3F_0000, 0).cmd_by_mut(&mut buf);
    assert_eq!(buf, vec![1, 0x000F_006D, 0x3F_0000, 0x000F_004D, 0, 0x000F_004E]);
}

#[test]
fn output_map_commands() {
    let mut buf = Vec::new();
    reset().cmd_by_mut(&mut buf);
    assert_eq!(buf.len(), 16);
    for r in 0..7u32 {
        assert_eq!(buf[2 * r as usize], 0x1F1F_1F1F);
        assert_eq!(buf[2 * r as usize + 1], (0x50 + r) | 0x000F_0000);
    }
    assert_eq!(&buf[14..], &[0, 0x000F_004F]);
    let c = Clock {
        position_z: true,
        color: true,
        texcoord0: false,
        texcoord1: true,
        texcoord2: false,
        texcoord0w: false,
        normquat_or_view: true,
    };
    assert_eq!(c.cmd(), vec![0x1 | 0x2 | 0x200 | 0x100_0000, 0x000F_006F]);
}
