use pica_cmd::gpucmd::GpuCmdByMut;
use pica_cmd::shader::{
    b, c, end, i, mov, o, r, swizzle_to_u64, v, Addr, Builder, DstReg, Error, Label, Mask, OpDesc,
    SrcRegLong, UniformAllocator, S, VSH,
};

const DEFAULT_OPDESC: u64 = 0x0D86_C36F;

#[test]
fn register_ranges() {
    assert!(o(15).is_ok());
    assert!(matches!(o(16), Err(Error::NoSuchRegister)));
    assert!(v(15).is_ok());
    assert!(matches!(v(16), Err(Error::NoSuchRegister)));
    assert!(r(15).is_ok());
    assert!(matches!(r(16), Err(Error::NoSuchRegister)));
    assert!(c(95).is_ok());
    assert!(matches!(c(96), Err(Error::NoSuchRegister)));
    assert!(i(3).is_ok());
    assert!(matches!(i(4), Err(Error::NoSuchRegister)));
    assert!(b(15).is_ok());
    assert!(matches!(b(16), Err(Error::NoSuchRegister)));
}

#[test]
fn descriptor_packing() {
    assert_eq!(swizzle_to_u64(S), 0x1B);
    assert_eq!(swizzle_to_u64((3, 3, 3, 3)), 0xFF);
    assert_eq!(OpDesc::default().bits(), DEFAULT_OPDESC);
    let d = OpDesc { source1_neg: true, dest: Mask(true, false, false, false), ..OpDesc::default() };
    assert_eq!(d.bits(), 0x8 | 0x10 | (0x1B << 5) | (0x1B << 14) | (0x1B << 23));
}

#[test]
fn equal_descriptors_share_an_index() {
    let bld = Builder::new();
    let bld = bld.add(mov(
        DstReg::out(o(0).unwrap(), Mask::xyzw()),
        SrcRegLong::input(v(0).unwrap(), false, S),
    ));
    let bld = bld.add(mov(
        DstReg::out(o(1).unwrap(), Mask::xyzw()),
        SrcRegLong::input(v(1).unwrap(), false, S),
    ));
    assert_eq!(bld.opdesc(), &vec![DEFAULT_OPDESC]);
    let bld = bld.add(mov(
        DstReg::out(o(2).unwrap(), Mask(true, true, false, false)),
        SrcRegLong::input(v(2).unwrap(), false, S),
    ));
    assert_eq!(bld.opdesc().len(), 2);
    let bld = bld.add(mov(
        DstReg::out(o(3).unwrap(), Mask::xyzw()),
        SrcRegLong::input(v(3).unwrap(), false, S),
    ));
    let bld = bld.add(end());
    assert_eq!(bld.opdesc(), &vec![DEFAULT_OPDESC, DEFAULT_OPDESC & !0x3]);
    assert_eq!(
        bld.prog(),
        &vec![
            0x4C00_0000,
            0x4C00_0000 | (1 << 21) | (1 << 7),
            0x4C00_0000 | (2 << 21) | (2 << 7) | 1,
            0x4C00_0000 | (3 << 21) | (3 << 7),
            0x8800_0000,
        ]
    );
}

#[test]
fn instruction_fields() {
    let bld = Builder::new();
    let ins = mov(
        DstReg::general(r(5).unwrap(), Mask::xyzw()),
        SrcRegLong::uniform(c(10).unwrap(), false, S),
    )
    .with_addr(Addr::Y);
    let bld = bld.add(ins);
    assert_eq!(bld.prog(), &vec![(0x13 << 26) | (0x15 << 21) | (2 << 19) | (0x2A << 7)]);
    let mut label = Label(None);
    bld.add_label(&mut label);
    assert_eq!(label.0, Some(1));
}

#[test]
fn vertex_shader_upload() {
    let bld = Builder::new();
    let bld = bld.add(mov(
        DstReg::out(o(0).unwrap(), Mask::xyzw()),
        SrcRegLong::input(v(0).unwrap(), false, S),
    ));
    let bld = bld.add(end());
    let mut buf = Vec::new();
    (bld, VSH).cmd_by_mut(&mut buf);
    assert_eq!(
        buf,
        vec![
            0,
            0x000F_02CB,
            0x4C00_0000,
            0x000F_02CC | (1 << 20),
            0x8800_0000,
            0,
            1,
            0x000F_02BF,
            0,
            0x000F_02D5,
            DEFAULT_OPDESC as u32,
            0x000F_02D6 | (1 << 20),
            0,
            0,
        ]
    );
}

#[test]
fn uniform_allocation() {
    let mut alloc = UniformAllocator::new();
    let data = [1.0f32.to_bits(), 2.0f32.to_bits(), 3.0f32.to_bits(), 4.0f32.to_bits()];
    assert!(alloc.add_uniform().is_ok());
    assert!(alloc.add_const(data).is_ok());
    assert_eq!(alloc.n_allocated, 2);
    assert_eq!(alloc.constant(1), Some(data));
    assert_eq!(alloc.constant(0), None);
    for _ in 2..96 {
        assert!(alloc.add_uniform().is_ok());
    }
    assert!(matches!(alloc.add_uniform(), Err(Error::NoSuchRegister)));
    assert!(matches!(alloc.add_const(data), Err(Error::NoSuchRegister)));
    assert_eq!(alloc.n_allocated, 96);
}
