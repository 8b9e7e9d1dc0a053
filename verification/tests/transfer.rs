use g2d::canvas::Canvas;
use g2d::command::{
    clear_commands, readback_commands, release_commands, staging_layout, staging_size,
    upload_commands, write_commands, BufferLayout, BufferSlot, GpuCommand,
};
use g2d::dimension::Dimension;
use g2d::error::Error;
use g2d::graphics::Graphics;
use g2d::layout::insert_padding;
use g2d::pixels_mut::PixelsMut;
use g2d::rgba::Rgba;
use g2d::surface::{preferred_format, resize_surface};
use g2d::texture::Texture;
use g2d::usage::{BufferUsages, TextureUsage, TextureUsages};

/// What the copy engine leaves in a staging buffer: the rows of `texels`
/// at the padded stride, with `fill` in the padding.
fn stage(texels: &[u8], size: Dimension, fill: u8) -> Vec<u8> {
    let stride = g2d::layout::padded_stride(size.width) as usize;
    let row_bytes = size.width as usize * 4;
    let mut staging = insert_padding(texels, row_bytes, stride, size.height as usize);
    for row in 0..size.height as usize {
        for column in row_bytes..stride {
            staging[row * stride + column] = fill;
        }
    }
    staging
}

fn readback(size: u64, bytes_per_row: u32, rows: Option<u32>, extent: Dimension) -> Vec<GpuCommand> {
    vec![
        GpuCommand::CreateBuffer {
            slot: BufferSlot::Staging,
            size,
            usage: BufferUsages {
                map_read: true,
                copy_src: false,
                copy_dst: true,
            },
        },
        GpuCommand::CopyTextureToBuffer {
            slot: BufferSlot::Staging,
            layout: BufferLayout {
                offset: 0,
                bytes_per_row: Some(bytes_per_row),
                rows_per_image: rows,
            },
            extent,
        },
        GpuCommand::Submit,
        GpuCommand::MapRead {
            slot: BufferSlot::Staging,
        },
        GpuCommand::Poll,
    ]
}

#[test]
fn staging_size_is_padded_stride_times_height() {
    assert_eq!(staging_size(Dimension::new(16, 16)), 4096);
    assert_eq!(staging_size(Dimension::new(2, 2)), 512);
    assert_eq!(staging_size(Dimension::new(65, 3)), 1536);
    assert_eq!(staging_size(Dimension::new(1, u32::MAX)), 1_099_511_627_520);
}

#[test]
fn staging_layout_uses_the_padded_stride() {
    assert_eq!(
        staging_layout(Dimension::new(65, 3), Some(3)),
        BufferLayout {
            offset: 0,
            bytes_per_row: Some(512),
            rows_per_image: Some(3)
        }
    );
    assert_eq!(
        staging_layout(Dimension::new(1_073_741_760, 1), None),
        BufferLayout {
            offset: 0,
            bytes_per_row: Some(4_294_967_040),
            rows_per_image: None
        }
    );
}

#[test]
fn readback_commands_are_in_order() {
    let size = Dimension::new(16, 16);
    assert_eq!(readback_commands(size, None), readback(4096, 256, None, size));
    assert_eq!(
        readback_commands(size, Some(16)),
        readback(4096, 256, Some(16), size)
    );
}

#[test]
fn upload_commands_are_in_order() {
    let size = Dimension::new(65, 3);
    assert_eq!(
        upload_commands(size),
        vec![
            GpuCommand::CreateBuffer {
                slot: BufferSlot::Upload,
                size: 1536,
                usage: BufferUsages {
                    map_read: false,
                    copy_src: true,
                    copy_dst: true
                },
            },
            GpuCommand::WriteBuffer {
                slot: BufferSlot::Upload
            },
            GpuCommand::CopyBufferToTexture {
                slot: BufferSlot::Upload,
                layout: BufferLayout {
                    offset: 0,
                    bytes_per_row: Some(512),
                    rows_per_image: Some(3)
                },
                extent: size,
            },
            GpuCommand::Submit,
            GpuCommand::Unmap {
                slot: BufferSlot::Staging
            },
        ]
    );
}

#[test]
fn write_commands_use_the_packed_stride() {
    let size = Dimension::new(65, 3);
    assert_eq!(
        write_commands(size),
        vec![GpuCommand::WriteTexture {
            layout: BufferLayout {
                offset: 0,
                bytes_per_row: Some(260),
                rows_per_image: None
            },
            extent: size,
        }]
    );
}

#[test]
fn clear_commands_are_a_pass_and_a_submit() {
    assert_eq!(
        clear_commands(),
        vec![GpuCommand::ClearPass, GpuCommand::Submit]
    );
}

#[test]
fn release_commands_unmap_the_staging_buffer() {
    assert_eq!(
        release_commands(),
        vec![GpuCommand::Unmap {
            slot: BufferSlot::Staging
        }]
    );
}

#[test]
fn canvas_keeps_its_parts() {
    let usage = TextureUsages::empty().with(TextureUsage::CopySrc);
    let canvas = Canvas::from_raw_parts(Dimension::new(4, 5), usage);
    assert_eq!(canvas.size(), Dimension::new(4, 5));
    assert_eq!(canvas.usage(), usage);
}

#[test]
fn canvas_write_accepts_a_full_buffer() {
    let size = Dimension::new(16, 16);
    let canvas = Canvas::from_raw_parts(size, TextureUsages::all());
    assert_eq!(
        canvas.write(&[255u8; 1024]),
        Ok(vec![GpuCommand::WriteTexture {
            layout: BufferLayout {
                offset: 0,
                bytes_per_row: Some(64),
                rows_per_image: None
            },
            extent: size,
        }])
    );
}

#[test]
fn canvas_write_refuses_a_short_buffer() {
    for (width, height) in [(16u32, 16u32), (1, 1), (65, 3)] {
        let canvas = Canvas::from_raw_parts(Dimension::new(width, height), TextureUsages::all());
        let full = (width * height * 4) as usize;
        assert_eq!(
            canvas.write(&vec![0u8; full - 1]),
            Err(Error::SizeMismatch {
                expected: full as u64,
                got: full as u64 - 1
            })
        );
    }
}

#[test]
fn canvas_write_refuses_a_long_buffer() {
    let canvas = Canvas::from_raw_parts(Dimension::new(2, 2), TextureUsages::all());
    assert_eq!(
        canvas.write(&[0u8; 17]),
        Err(Error::SizeMismatch {
            expected: 16,
            got: 17
        })
    );
    assert_eq!(
        canvas.write(&[]),
        Err(Error::SizeMismatch {
            expected: 16,
            got: 0
        })
    );
}

#[test]
fn canvas_write_needs_copy_destination() {
    let usage = TextureUsages::all().without(TextureUsage::CopyDst);
    let canvas = Canvas::from_raw_parts(Dimension::new(2, 2), usage);
    assert_eq!(
        canvas.write(&[0u8; 16]),
        Err(Error::MissingCapability(TextureUsage::CopyDst))
    );
    // The missing use is reported before the wrong length.
    assert_eq!(
        canvas.write(&[0u8; 15]),
        Err(Error::MissingCapability(TextureUsage::CopyDst))
    );
}

#[test]
fn canvas_staging_plans_the_readback() {
    let size = Dimension::new(16, 16);
    let canvas = Canvas::from_raw_parts(size, TextureUsages::all());
    assert_eq!(canvas.staging(), Ok(readback(4096, 256, None, size)));
}

#[test]
fn canvas_read_needs_copy_source() {
    let usage = TextureUsages::all().without(TextureUsage::CopySrc);
    let size = Dimension::new(2, 2);
    let canvas = Canvas::from_raw_parts(size, usage);
    assert_eq!(
        canvas.staging(),
        Err(Error::MissingCapability(TextureUsage::CopySrc))
    );
    let staging = stage(&[255u8; 16], size, 0);
    assert_eq!(
        canvas.pixels(Some(&staging)),
        Err(Error::MissingCapability(TextureUsage::CopySrc))
    );
    assert_eq!(
        canvas.pixels(None),
        Err(Error::MissingCapability(TextureUsage::CopySrc))
    );
}

#[test]
fn canvas_pixels_reports_a_failed_map() {
    let canvas = Canvas::from_raw_parts(Dimension::new(2, 2), TextureUsages::all());
    assert_eq!(canvas.pixels(None), Err(Error::DeviceFailure));
    assert_eq!(canvas.pixels(Some(&[0u8; 511])), Err(Error::DeviceFailure));
    assert_eq!(canvas.pixels(Some(&[0u8; 16])), Err(Error::DeviceFailure));
    assert_eq!(canvas.pixels(Some(&[])), Err(Error::DeviceFailure));
}

#[test]
fn white_texture_reads_back_white() {
    let size = Dimension::new(16, 16);
    let canvas = Canvas::from_raw_parts(size, TextureUsages::all());
    let data = vec![0xFFu8; 1024];
    assert!(canvas.write(&data).is_ok());
    let staging = stage(&data, size, 0);
    assert_eq!(staging.len(), 4096);
    let pixels = canvas.pixels(Some(&staging)).unwrap();
    assert_eq!(pixels.size(), size);
    assert_eq!(pixels.to_vec().len(), 1024);
    assert_eq!(pixels.into_vec(), vec![0xFFu8; 1024]);
}

#[test]
fn written_pixels_read_back_unchanged() {
    for (width, height) in [(1u32, 1u32), (2, 2), (16, 16), (64, 2), (65, 3), (100, 7)] {
        let size = Dimension::new(width, height);
        let canvas = Canvas::from_raw_parts(size, TextureUsages::all());
        let data: Vec<u8> = (0..width * height * 4).map(|i| (i % 253) as u8).collect();
        assert!(canvas.write(&data).is_ok());
        let staging = stage(&data, size, 0x5A);
        let pixels = canvas.pixels(Some(&staging)).unwrap();
        assert_eq!(pixels.size(), size);
        assert_eq!(pixels.into_vec(), data);
    }
}

#[test]
fn reading_twice_gives_the_same_pixels() {
    let size = Dimension::new(3, 2);
    let canvas = Canvas::from_raw_parts(size, TextureUsages::all());
    let texels: Vec<u8> = (0..24).collect();
    let first = canvas.pixels(Some(&stage(&texels, size, 0))).unwrap();
    let second = canvas.pixels(Some(&stage(&texels, size, 0xEE))).unwrap();
    assert_eq!(first, second);
    assert_eq!(first.into_vec(), texels);
}

#[test]
fn canvas_clear_needs_render_attachment() {
    let size = Dimension::new(2, 2);
    let canvas = Canvas::from_raw_parts(size, TextureUsages::all());
    assert_eq!(
        canvas.clear(),
        Ok(vec![GpuCommand::ClearPass, GpuCommand::Submit])
    );
    let usage = TextureUsages::all().without(TextureUsage::RenderAttachment);
    assert_eq!(
        Canvas::from_raw_parts(size, usage).clear(),
        Err(Error::MissingCapability(TextureUsage::RenderAttachment))
    );
}

#[test]
fn graphics_staging_tells_the_rows() {
    let size = Dimension::new(2, 2);
    let graphics = Graphics::from_raw_parts(size);
    assert_eq!(graphics.size(), size);
    assert_eq!(graphics.staging(), readback(512, 256, Some(2), size));
    assert_eq!(
        Texture::texture_to_buffer(size),
        readback(512, 256, Some(2), size)
    );
}

#[test]
fn one_black_pixel_on_white() {
    let size = Dimension::new(2, 2);
    let texture = Texture::make_blank_texture(size);
    let white = vec![255u8; 16];
    assert!(texture.canvas().write(&white).is_ok());

    let staging = stage(&white, size, 0);
    let (previous, upload) = texture
        .graphics()
        .pixels_mut(Some(staging), |mut view: PixelsMut| {
            let previous = view.set_color(0, 0, Rgba::black());
            (view, previous)
        })
        .unwrap();
    assert_eq!(previous, Some(Rgba::white()));
    assert_eq!(upload.commands, upload_commands(size));
    assert_eq!(upload.data.len(), 512);

    // The upload buffer is copied back at the same stride, so the
    // texture then holds the rows of `upload.data`.
    let pixels = texture.canvas().pixels(Some(&upload.data)).unwrap().into_vec();
    assert_eq!(pixels.len(), 16);
    assert_eq!(&pixels[0..4], &[0, 0, 0, 255]);
    assert_eq!(&pixels[4..16], &[255u8; 12]);
}

#[test]
fn pixels_mut_returns_the_callbacks_value() {
    let size = Dimension::new(3, 2);
    let graphics = Graphics::from_raw_parts(size);
    let texels: Vec<u8> = (0..24).collect();
    let (count, upload) = graphics
        .pixels_mut(Some(stage(&texels, size, 9)), |view: PixelsMut| {
            let count = view.len();
            (view, count)
        })
        .unwrap();
    assert_eq!(count, 6);
    assert_eq!(upload.data, stage(&texels, size, 9));
}

#[test]
fn pixels_mut_reports_a_failed_map() {
    let graphics = Graphics::from_raw_parts(Dimension::new(2, 2));
    let outcome = graphics.pixels_mut(None, |view: PixelsMut| (view, 1));
    assert_eq!(outcome.unwrap_err(), Error::DeviceFailure);
    let outcome = graphics.pixels_mut(Some(vec![0u8; 16]), |view: PixelsMut| (view, 1));
    assert_eq!(outcome.unwrap_err(), Error::DeviceFailure);
}

#[test]
fn pixels_mut_refuses_a_view_of_another_length() {
    let graphics = Graphics::from_raw_parts(Dimension::new(2, 2));
    let outcome = graphics.pixels_mut(Some(vec![0u8; 512]), |_view: PixelsMut| {
        let other = PixelsMut::new(vec![0u8; 768], 256, Dimension::new(2, 3)).unwrap();
        (other, ())
    });
    assert_eq!(
        outcome.unwrap_err(),
        Error::SizeMismatch {
            expected: 512,
            got: 768
        }
    );
}

#[test]
fn blank_texture_may_do_all_but_storage() {
    let texture = Texture::make_blank_texture(Dimension::new(4, 3));
    assert_eq!(texture.dimension(), Dimension::new(4, 3));
    assert_eq!(texture.width(), 4);
    assert_eq!(texture.height(), 3);
    assert_eq!(
        texture.usage(),
        TextureUsages::all().without(TextureUsage::StorageBinding)
    );
    assert_eq!(texture.canvas().size(), Dimension::new(4, 3));
    assert_eq!(texture.canvas().usage(), texture.usage());
    assert_eq!(texture.graphics().size(), Dimension::new(4, 3));
}

#[test]
fn sampled_texture_may_be_bound_and_copied() {
    let texture = Texture::make_sampled_texture(Dimension::new(4, 3));
    assert_eq!(texture.dimension(), Dimension::new(4, 3));
    assert_eq!(
        texture.usage(),
        TextureUsages::empty()
            .with(TextureUsage::TextureBinding)
            .with(TextureUsage::CopyDst)
            .with(TextureUsage::CopySrc)
    );
    assert!(!texture.usage().contains(TextureUsage::RenderAttachment));
    assert!(!texture.usage().contains(TextureUsage::StorageBinding));
}

#[test]
fn texture_from_raw_parts_keeps_its_parts() {
    let usage = TextureUsages::empty()
        .with(TextureUsage::TextureBinding)
        .with(TextureUsage::CopyDst)
        .with(TextureUsage::CopySrc);
    let texture = Texture::from_raw_parts(Dimension::new(16, 16), usage);
    assert_eq!(texture.dimension(), Dimension::new(16, 16));
    assert_eq!(texture.usage(), usage);
}

#[test]
fn make_texture_checks_the_data() {
    let size = Dimension::new(16, 16);
    let texture = Texture::make_texture(size, &[255u8; 1024]).unwrap();
    assert_eq!(texture.dimension(), size);
    assert_eq!(
        texture.usage(),
        TextureUsages::all().without(TextureUsage::StorageBinding)
    );
    assert_eq!(
        Texture::make_texture(size, &[255u8; 1023]).unwrap_err(),
        Error::SizeMismatch {
            expected: 1024,
            got: 1023
        }
    );
    assert_eq!(
        Texture::make_texture(size, &[255u8; 1025]).unwrap_err(),
        Error::SizeMismatch {
            expected: 1024,
            got: 1025
        }
    );
}

#[test]
fn preferred_format_is_the_first_srgb() {
    assert_eq!(preferred_format(&[]), None);
    assert_eq!(preferred_format(&[false]), Some(0));
    assert_eq!(preferred_format(&[false, false, false]), Some(0));
    assert_eq!(preferred_format(&[true]), Some(0));
    assert_eq!(preferred_format(&[false, true, true]), Some(1));
    assert_eq!(preferred_format(&[false, false, true]), Some(2));
}

#[test]
fn resize_ignores_sizes_without_area() {
    assert_eq!(
        resize_surface(Dimension::new(800, 600)),
        Some(Dimension::new(800, 600))
    );
    assert_eq!(resize_surface(Dimension::new(0, 600)), None);
    assert_eq!(resize_surface(Dimension::new(800, 0)), None);
    assert_eq!(resize_surface(Dimension::new(0, 0)), None);
    assert_eq!(
        resize_surface(Dimension::new(65_536, 65_536)),
        Some(Dimension::new(65_536, 65_536))
    );
}
