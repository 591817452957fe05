use pica_cmd::gpucmd::GpuCmdByMut;
use pica_cmd::shader_unfun::dvlb::DVLB;
use pica_cmd::shader_unfun::dvle::{UniformEntry, DVLE};
use pica_cmd::shader_unfun::dvlp::{DVLP, VSH};
use pica_cmd::shader_unfun::{Error, GshMode, Kind};

/// A shader entry with two output rows (position in o0, color in o1), one
/// uniform named "proj" in c16..c19, and the given words 1 and 5.
fn entry(word1: u32, word5: u32, outs: &[(u32, u32)], name: &[u8]) -> Vec<u32> {
    let out_start = 15u32;
    let uni_start = out_start + 2 * outs.len() as u32;
    let sym_start = uni_start + 2;
    let mut e = vec![
        0x454C_5644,
        word1,
        0x10,
        0x40,
        0,
        word5,
        out_start * 4,
        0,
        0,
        0,
        out_start * 4,
        outs.len() as u32,
        uni_start * 4,
        1,
        sym_start * 4,
    ];
    for &(w0, w1) in outs {
        e.push(w0);
        e.push(w1);
    }
    e.push(0);
    e.push(0x10 | (0x13 << 16));
    let mut bytes = name.to_vec();
    while bytes.len() % 4 != 0 {
        bytes.push(0);
    }
    for c in bytes.chunks(4) {
        e.push(u32::from_le_bytes([c[0], c[1], c[2], c[3]]));
    }
    e
}

const POS_AND_COLOR: [(u32, u32); 2] = [(0, 0xF), (2 | (1 << 16), 0xF)];

fn program() -> Vec<u32> {
    vec![0x504C_5644, 0, 24, 2, 32, 2, 0xAAAA, 0xBBBB, 0x111, 0, 0x222, 0]
}

fn container(entry_words: &[u32]) -> Vec<u32> {
    let prog = program();
    let mut w = vec![0x424C_5644, 1, 0];
    w.extend_from_slice(&prog);
    w[2] = (w.len() * 4) as u32;
    w.extend_from_slice(entry_words);
    w
}

fn parse(words: &[u32]) -> Result<DVLB, Error> {
    DVLB::parse_file(bytemuck::cast_slice::<u32, u8>(words))
}

#[test]
fn parses_vertex_entry_with_position_and_color() {
    let words = container(&entry(0, 0, &POS_AND_COLOR, b"proj\0"));
    let dvlb = parse(&words).unwrap();
    assert_eq!(dvlb.dvlp.code, vec![0xAAAA, 0xBBBB]);
    assert_eq!(dvlb.dvlp.opcdesc, vec![0x111, 0x222]);
    assert_eq!(dvlb.dvles.len(), 1);
    let e = &dvlb.dvles[0];
    assert_eq!(e.kind, Kind::Vertex);
    assert!(e.geom.is_none());
    assert_eq!(e.main_offset, 0x10);
    assert_eq!(e.main_end, 0x40);
    assert_eq!(
        e.outmap.cmd,
        vec![
            2,
            0x807F_004F,
            0x0000_0000,
            0x0808_0808,
            0x1F1F_1F1F,
            0x1F1F_1F1F,
            0x1F1F_1F1F,
            0x1F1F_1F1F,
            0x1F1F_1F1F,
            0,
        ]
    );
    assert_eq!(e.outmap.clock, 0b11);
    assert_eq!(e.outmap.mode, 0);
    assert_eq!(e.symbol_to_uniform.len(), 1);
    assert_eq!(e.symbol_to_uniform[0].0, "proj");
    assert_eq!(e.symbol_to_uniform[0].1, UniformEntry { start_reg: 0x10, end_reg: 0x13 });
}

#[test]
fn texcoord_rows_set_mode_and_share_lanes() {
    let outs = [(3 | (2 << 16), 0x3), (4 | (2 << 16), 0xC), (9, 0xF)];
    let e = DVLE::parse_dvle(&entry(0, 0, &outs, b"m\0")).unwrap();
    assert_eq!(e.outmap.cmd[0], 1);
    assert_eq!(e.outmap.cmd[4], 0x1F10_0C0C);
    assert_eq!(e.outmap.mode, 1);
    assert_eq!(e.outmap.clock, 0x100 | 0x1_0000);
}

#[test]
fn assigned_lanes_are_kept() {
    let outs = [(2, 0x3), (6, 0xF)];
    let e = DVLE::parse_dvle(&entry(0, 0, &outs, b"m\0")).unwrap();
    assert_eq!(e.outmap.cmd[2], 0x1616_0808);
}

#[test]
fn geometry_entry() {
    let gsh = 2 | (3 << 8) | (4 << 16) | (5 << 24);
    let e = DVLE::parse_dvle(&entry(1 << 16, gsh, &POS_AND_COLOR, b"proj\0")).unwrap();
    assert_eq!(e.kind, Kind::Geometry);
    let g = e.geom.unwrap();
    assert_eq!(g.mode, GshMode::FixedPrim);
    assert_eq!((g.fixed_vertex_start, g.variable_vertex_num, g.fixed_vertex_num), (3, 4, 5));
    assert!(matches!(
        DVLE::parse_dvle(&entry(1 << 16, 3, &POS_AND_COLOR, b"proj\0")),
        Err(Error::BadGshMode)
    ));
}

#[test]
fn short_container_is_eof() {
    assert!(matches!(parse(&[]), Err(Error::UnexpectedEof)));
    assert!(matches!(parse(&[0x424C_5644]), Err(Error::UnexpectedEof)));
    assert!(matches!(parse(&[0x424C_5644, 3, 0]), Err(Error::UnexpectedEof)));
    let words = container(&entry(0, 0, &POS_AND_COLOR, b"proj\0"));
    assert!(matches!(parse(&words[..10]), Err(Error::UnexpectedEof)));
    assert!(matches!(parse(&words[..words.len() - 3]), Err(Error::UnexpectedEof)));
}

#[test]
fn ragged_length_is_a_cast_error() {
    let words = container(&entry(0, 0, &POS_AND_COLOR, b"proj\0"));
    let bytes = bytemuck::cast_slice::<u32, u8>(&words);
    assert!(matches!(DVLB::parse_file(&bytes[..bytes.len() - 1]), Err(Error::BytemuckPodcast(_))));
}

#[test]
fn entry_offset_past_end_is_eof() {
    let mut words = container(&entry(0, 0, &POS_AND_COLOR, b"proj\0"));
    words[2] = 0x10_0000;
    assert!(matches!(parse(&words), Err(Error::UnexpectedEof)));
}

#[test]
fn bad_names_and_registers() {
    assert!(matches!(
        DVLE::parse_dvle(&entry(0, 0, &POS_AND_COLOR, &[0x70, 0xFF, 0xFE, 0])),
        Err(Error::Utf8Error(_))
    ));
    assert!(matches!(
        DVLE::parse_dvle(&entry(0, 0, &POS_AND_COLOR, b"proj")),
        Err(Error::UnexpectedEof)
    ));
    assert!(matches!(
        DVLE::parse_dvle(&entry(0, 0, &[(2 | (7 << 16), 0xF)], b"m\0")),
        Err(Error::BadOutputRegister)
    ));
    let ok = DVLE::parse_dvle(&entry(0, 0, &[(9 | (7 << 16), 0xF)], b"m\0")).unwrap();
    assert_eq!(ok.outmap.cmd[0], 0);
}

#[test]
fn program_section_bounds() {
    let p = DVLP::parse_dvlp(&program()).unwrap();
    assert_eq!(p.code, vec![0xAAAA, 0xBBBB]);
    let mut bad = program();
    bad[3] = 7;
    assert!(matches!(DVLP::parse_dvlp(&bad), Err(Error::UnexpectedEof)));
    let mut bad = program();
    bad[5] = 3;
    assert!(matches!(DVLP::parse_dvlp(&bad), Err(Error::UnexpectedEof)));
    assert!(matches!(DVLP::parse_dvlp(&program()[..5]), Err(Error::UnexpectedEof)));
}

#[test]
fn uniform_lookup_by_name() {
    let e = DVLE::parse_dvle(&entry(0, 0, &POS_AND_COLOR, b"proj\0")).unwrap();
    assert_eq!(
        e.uniform(&"proj".to_string()),
        Some(UniformEntry { start_reg: 0x10, end_reg: 0x13 })
    );
    assert_eq!(e.uniform(&"view".to_string()), None);
}

#[test]
fn program_section_upload() {
    let p = DVLP::parse_dvlp(&program()).unwrap();
    let mut buf = Vec::new();
    (VSH, p).cmd_by_mut(&mut buf);
    assert_eq!(
        buf,
        vec![
            0,
            0x000F_02CB,
            0xAAAA,
            0x000F_02CC | (1 << 20),
            0xBBBB,
            0,
            1,
            0x000F_02BF,
            0,
            0x000F_02D5,
            0x111,
            0x000F_02D6 | (1 << 20),
            0x222,
            0,
        ]
    );
}

#[test]
fn short_geometry_entry_reports_its_mode_first() {
    let words = [0x454C_5644, 1 << 16, 0, 0, 0, 7, 0, 0];
    assert!(matches!(DVLE::parse_dvle(&words), Err(Error::BadGshMode)));
    let words = [0x454C_5644, 1 << 16, 0, 0, 0, 1, 0, 0];
    assert!(matches!(DVLE::parse_dvle(&words), Err(Error::UnexpectedEof)));
    assert!(matches!(DVLE::parse_dvle(&words[..5]), Err(Error::UnexpectedEof)));
}
