use weathervane::radar::{colored_palette, colorize, image_url_span, scale_palette, shaded_palette};

#[test]
fn shaded_palette_inverts_red_into_opacity() {
    let global = vec![10, 20, 30, 200, 0, 0, 7];
    let palette = shaded_palette(&global, None);
    assert_eq!(palette.len(), 256);
    assert_eq!(palette[0], [0x80, 0x80, 0x80, 245]);
    assert_eq!(palette[1], [0x80, 0x80, 0x80, 55]);
    assert_eq!(palette[2], [0x80, 0x80, 0x80, 248]);
    assert_eq!(palette[3], [0, 0, 0, 0]);
    let with_background = shaded_palette(&global, Some(1));
    assert_eq!(with_background[1], [0, 0, 0, 0]);
    assert_eq!(with_background[0], [0x80, 0x80, 0x80, 245]);
}

#[test]
fn colored_palette_keeps_whole_entries_only() {
    let palette = colored_palette(&vec![1, 2, 3, 4, 5, 6, 7], Some(0));
    assert_eq!(palette[0], [0, 0, 0, 0]);
    assert_eq!(palette[1], [4, 5, 6, 0xFF]);
    assert_eq!(palette[2], [0, 0, 0, 0]);
    let plain = colored_palette(&vec![1, 2, 3], None);
    assert_eq!(plain[0], [1, 2, 3, 0xFF]);
}

#[test]
fn colorize_expands_indices() {
    let palette = colored_palette(&vec![1, 2, 3, 4, 5, 6], None);
    assert_eq!(colorize(&vec![1, 0, 9], &palette), vec![4, 5, 6, 255, 1, 2, 3, 255, 0, 0, 0, 0]);
    assert!(colorize(&vec![], &palette).is_empty());
}

#[test]
fn scale_palette_fades_in_the_last_steps() {
    let width = 100;
    let column = [9u8, 9, 8, 7, 6, 5, 4, 3, 2, 1];
    let mut buffer = vec![0u8; 524 + width * 9 + 1];
    for (j, &v) in column.iter().enumerate() {
        buffer[524 + j * width] = v;
    }
    let palette = scale_palette(&buffer, width);
    assert_eq!(palette[1], [0, 0, 0, 0x55]);
    assert_eq!(palette[2], [0, 0, 0, 0x7F]);
    assert_eq!(palette[3], [0, 0, 0, 0xA9]);
    assert_eq!(palette[4], [0, 0, 0, 0xD3]);
    assert_eq!(palette[5], [0, 0, 0, 0xFD]);
    assert_eq!(palette[6], [0, 0, 0, 0xFF]);
    assert_eq!(palette[7], [0, 0, 0, 0]);
    assert_eq!(palette[8], [0, 0, 0, 0]);
    assert_eq!(palette[9], [0, 0, 0, 0]);
    assert_eq!(palette[0], [0, 0, 0, 0]);
}

#[test]
fn scale_palette_of_short_scale() {
    let mut buffer = vec![0u8; 530];
    buffer[524] = 3;
    buffer[527] = 4;
    let palette = scale_palette(&buffer, 3);
    assert_eq!(palette[4], [0, 0, 0, 0x55]);
    assert_eq!(palette[3], [0, 0, 0, 0x7F]);
    assert!(scale_palette(&vec![1; 100], 10).iter().all(|c| *c == [0, 0, 0, 0]));
}

#[test]
fn radar_image_url_is_found() {
    let page = r#"<img src="/x.png"><img src="/data/radar/temp_image/WMN/WMN_PRECIP_RAIN_2020.GIF" alt="">"#;
    let (start, end) = image_url_span(&page.as_bytes().to_vec()).unwrap();
    assert_eq!(&page[start..end], "/data/radar/temp_image/WMN/WMN_PRECIP_RAIN_2020.GIF");
}

#[test]
fn radar_image_url_takes_first_occurrence() {
    let page = "a /data/radar/temp_image/1.gif\" b /data/radar/temp_image/2.gif\"";
    let (start, end) = image_url_span(&page.as_bytes().to_vec()).unwrap();
    assert_eq!(&page[start..end], "/data/radar/temp_image/1.gif");
}

#[test]
fn radar_image_url_missing() {
    assert_eq!(image_url_span(&b"no image here".to_vec()), None);
    assert_eq!(image_url_span(&b"/data/radar/temp_image/unterminated".to_vec()), None);
    assert_eq!(image_url_span(&b"/data/radar/temp_imag".to_vec()), None);
    assert_eq!(image_url_span(&Vec::new()), None);
}
