use pica_cmd::buffer::BufferSlice;
use pica_cmd::floater::{f24x4_pack, f32_bits_to_f24};
use pica_cmd::gpucmd::CommandBuffer;
use pica_cmd::gpucmd::CmdBufAllocator;
use pica_cmd::gpucmd::GpuCmdByMut;
use pica_cmd::queue::{
    gx_cmd_head, gx_command_list, gx_display_transfer, gx_dma, gx_flush_cache_regions,
    gx_memory_fill, gx_texture_copy, Error, Queue, ScaleDownFilter, TransferFlags, TransferFormat,
};
use pica_cmd::renderbuffer::{dim, ColorBuffer, ColorFormat};
use pica_cmd::texture::{self, valid_size, Format, Mode, TextureDescriptor};

fn f24(x: f32) -> u32 {
    f32_bits_to_f24(x.to_bits())
}

#[test]
fn float24_boundaries() {
    assert_eq!(f24(1.0), 0x3F_0000);
    assert_eq!(f24(0.0), 0);
    assert_eq!(f24(-0.0), 0x80_0000);
    assert_eq!(f24(2.0), 0x40_0000);
    assert_eq!(f24(1.5), 0x3F_8000);
    assert_eq!(f24(-1.0), 0xBF_0000);
    assert_eq!(f24(1e-30), 0);
    assert_eq!(f24(-1e-30), 0x80_0000);
    assert_eq!(f24(1e30), 0x7F_0000);
    assert_eq!(f24(-1e30), 0xFF_0000);
}

#[test]
fn float24_packing() {
    let x = f24(1.0);
    let y = f24(2.0);
    let z = f24(-1.0);
    let w = f24(1.5);
    assert_eq!(
        f24x4_pack(x, y, z, w),
        [0xBF | (0x3F_8000 << 8), 0x4000 | (0x0000 << 16), 0x3F_0000 | (0x00 << 24)]
    );
}

#[test]
fn queue_headers_and_commands() {
    assert_eq!(gx_cmd_head(1, true, true), 0x0101_0001);
    assert_eq!(gx_cmd_head(5, true, false), 0x0001_0005);
    assert_eq!(gx_dma(0x100, 0x200, 64, true), [0x0101_0000, 0x100, 0x200, 64, 0, 0, 0, 1]);
    assert_eq!(gx_command_list(0x300, 80, false, true), [0x0101_0001, 0x300, 80, 0, 0, 0, 0, 1]);
    assert_eq!(
        gx_memory_fill(1, 2, 3, 0x201, 4, 5, 6, 0x301),
        [0x0101_0002, 1, 2, 3, 4, 5, 6, 0x201 | (0x301 << 16)]
    );
    assert_eq!(gx_display_transfer(1, 2, 3, 4, 5), [0x0101_0003, 1, 3, 2, 4, 5, 0, 0]);
    assert_eq!(gx_texture_copy(1, 2, 3, 4, 5, 6), [0x0101_0004, 1, 3, 5, 2, 4, 6, 0]);
    assert_eq!(gx_flush_cache_regions(1, 2, 3, 4, 5, 6), [0x0001_0005, 1, 2, 3, 4, 5, 6, 0]);
}

#[test]
fn queue_status_and_requests() {
    assert!(matches!(Queue::check_status(0), Ok(())));
    assert!(matches!(Queue::check_status(-2), Err(Error::TooManyCommands)));
    assert!(matches!(Queue::check_status(-1), Err(Error::Unknown)));
    assert!(matches!(Queue::check_status(5), Err(Error::Unknown)));
    let src = BufferSlice::Linear { addr: 0x100, size: 64 };
    let dst = BufferSlice::Vram { addr: 0x200, size: 32 };
    assert_eq!(
        Queue::copy_buffer_command(&src, &dst, false),
        Some([0x0101_0000, 0x100, 0x200, 32, 0, 0, 0, 0])
    );
    assert_eq!(
        Queue::copy_buffer_command(&dst, &src, true),
        Some([0x0101_0000, 0x200, 0x100, 32, 0, 0, 0, 1])
    );
    let buf = CommandBuffer { buf: vec![0; 12] };
    assert_eq!(Queue::command_list(&buf, 0x1000), [0x0101_0001, 0x1000, 48, 0, 0, 0, 0, 1]);
}

#[test]
fn transfer_flags_bits() {
    let f = TransferFlags {
        flip_vert: true,
        tiled_out: false,
        output_width_less_than_input_width: true,
        texture_copy: false,
        tiled_to_tiled: true,
        input_color_format: TransferFormat::RGBA8,
        output_color_format: TransferFormat::RGB8,
        block_tiling_mode: true,
        scale_down_filter: ScaleDownFilter::DownXY,
    };
    assert_eq!(f.bits(), 1 | 4 | 0x20 | (0 << 8) | (1 << 12) | 0x1_0000 | (2 << 24));
    let cb = ColorBuffer::new(240, 400, ColorFormat::RGBA8, 0x1F00_0000).unwrap();
    assert_eq!(
        Queue::transfer_command(&cb, 0x1F00_0000, 0x1800_0000, 240, 400, f),
        [0x0101_0003, 0x1F00_0000, 0x1800_0000, (400 << 16) | 240, (400 << 16) | 240, f.bits(), 0, 0]
    );
}

#[test]
fn color_buffer_commands() {
    assert_eq!(dim(240, 400), 0x0190_00F0);
    assert!(ColorBuffer::new(240, 400, ColorFormat::RGB8, 0).is_none());
    assert!(ColorBuffer::new(240, 0, ColorFormat::RGBA8, 0).is_none());
    assert_eq!(ColorBuffer::byte_size(240, 400, ColorFormat::RGBA8), Some(240 * 400 * 4));
    assert_eq!(ColorFormat::RGB8.bytes_per_pixel(), 3);
    assert_eq!(ColorFormat::RGB565.gpureg_param(), 2);
    let cb = ColorBuffer::new(240, 400, ColorFormat::RGBA8, 0x1F00_0000).unwrap();
    let mut buf = Vec::new();
    cb.cmd_by_mut(&mut buf);
    assert_eq!(
        buf,
        vec![
            2,
            0x000F_0117,
            0x1F00_0000 >> 3,
            0x000F_011D,
            0xF,
            0x000F_0112,
            0xF,
            0x000F_0113,
            240 | (399 << 12),
            0x000F_011E,
        ]
    );
}

#[test]
fn command_buffer_padding() {
    assert_eq!(CmdBufAllocator::padded_size(0), Some(0));
    assert_eq!(CmdBufAllocator::padded_size(1), Some(16));
    assert_eq!(CmdBufAllocator::padded_size(40), Some(48));
    assert_eq!(CmdBufAllocator::padded_size(usize::MAX), None);
}

fn descriptor(width: u16, height: u16, max_mip: u8, mode: Mode) -> TextureDescriptor {
    TextureDescriptor { width, height, max_mip, format: Format::RGBA8, mode, vram: false }
}

#[test]
fn texture_sizes() {
    assert!(valid_size(8) && valid_size(1024) && valid_size(64));
    assert!(!valid_size(4) && !valid_size(2048) && !valid_size(24) && !valid_size(0));
    assert_eq!(Format::ETC1.bitsize(), 4);
    let d = descriptor(8, 8, 0, Mode::Ordinary);
    assert_eq!(d.bytesize_mip0(), 256);
    assert_eq!(TextureDescriptor::bytesize_mip0_to_mipn(256, 1), 64);
    assert_eq!(d.bytesize_total(), 256);
    let d = descriptor(64, 32, 2, Mode::Ordinary);
    assert_eq!(d.texture_size().ok(), Some((8192 - 128) * 4 / 3));
    assert!(matches!(
        descriptor(64, 32, 0, Mode::CubeMap).texture_size(),
        Err(texture::Error::ModeNotSupported)
    ));
    assert!(matches!(
        descriptor(60, 32, 0, Mode::Ordinary).texture_size(),
        Err(texture::Error::IncorrectSideLength)
    ));
}

#[test]
fn buffer_slices() {
    let lin = BufferSlice::Linear { addr: 0x1400_0000, size: 0x100 };
    let vram = BufferSlice::Vram { addr: 0x1F00_0000, size: 0x80 };
    assert!(lin.is_host_visible());
    assert!(!vram.is_host_visible());
    assert_eq!(lin.end_addr(), Some(0x1400_0100));
    assert_eq!(BufferSlice::Vram { addr: 0xFFFF_FFF0, size: 0x20 }.end_addr(), None);
    assert_eq!(vram.slice(0x10, 0x30), Some(BufferSlice::Vram { addr: 0x1F00_0010, size: 0x20 }));
    assert_eq!(lin.slice(0, 0x100), Some(BufferSlice::Linear { addr: 0x1400_0000, size: 0x100 }));
    assert_eq!(lin.slice(0, 0x101), None);
    assert_eq!(lin.slice(0x20, 0x10), None);
    assert_eq!(vram.size(), 0x80);
    assert_eq!(vram.start_addr(), 0x1F00_0000);
}
