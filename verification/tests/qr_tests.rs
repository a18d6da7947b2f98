use vcard_qr::{
    colorize, contact_qr_data_uri, generate_vcard, render_qr_data_uri, ContactData, EncodingError,
    GrayBitmap,
};

const URI_PREFIX: &str = "data:image/png;base64,";

fn decode_data_uri(uri: &str) -> image::DynamicImage {
    assert!(uri.starts_with(URI_PREFIX));
    let b64 = &uri[URI_PREFIX.len()..];
    let png = base64::Engine::decode(&base64::engine::general_purpose::STANDARD, b64).unwrap();
    image::load_from_memory(&png).unwrap()
}

#[test]
fn monochrome_render_is_square_black_and_white() {
    let uri = render_qr_data_uri("hello", None).unwrap();
    let img = decode_data_uri(&uri);
    let gray = img.to_luma8();
    assert_eq!(gray.width(), gray.height());
    // version 1 at 8 px per module with a 4-module quiet zone
    assert_eq!(gray.width(), (21 + 8) * 8);
    let mut blacks = 0u32;
    let mut whites = 0u32;
    for p in gray.pixels() {
        match p.0[0] {
            0 => blacks += 1,
            255 => whites += 1,
            other => panic!("unexpected luma value {other}"),
        }
    }
    assert!(blacks > 0 && whites > 0);
}

#[test]
fn colored_render_maps_dark_to_foreground_and_light_to_white() {
    let text = "colorized content";
    let gray = decode_data_uri(&render_qr_data_uri(text, None).unwrap()).to_luma8();
    let colored =
        decode_data_uri(&render_qr_data_uri(text, Some((12, 34, 56))).unwrap()).to_rgb8();
    assert_eq!(gray.dimensions(), colored.dimensions());
    for (x, y, p) in colored.enumerate_pixels() {
        let src = gray.get_pixel(x, y).0[0];
        if src == 0 {
            assert_eq!(p.0, [12, 34, 56]);
        } else {
            assert_eq!(src, 255);
            assert_eq!(p.0, [255, 255, 255]);
        }
    }
}

#[test]
fn colorize_maps_each_pixel() {
    let gray = GrayBitmap { width: 2, height: 2, pixels: vec![0, 255, 255, 0] };
    let out = colorize(&gray, (10, 20, 30));
    assert_eq!(out.width, 2);
    assert_eq!(out.height, 2);
    assert_eq!(
        out.pixels,
        vec![10, 20, 30, 255, 255, 255, 255, 255, 255, 10, 20, 30]
    );
}

#[test]
fn fits_at_byte_mode_capacity_of_largest_symbol() {
    // version 40 at medium error correction holds 18672 data bits; a byte
    // mode segment spends 20 bits on header, leaving 2331 bytes
    let text = "a".repeat(2331);
    assert!(render_qr_data_uri(&text, None).is_ok());
}

#[test]
fn fails_just_over_byte_mode_capacity() {
    let text = "a".repeat(2332);
    assert_eq!(render_qr_data_uri(&text, None), Err(EncodingError));
}

#[test]
fn end_to_end_contact_scenario() {
    let data = ContactData {
        first_name: "Jane".to_string(),
        last_name: "Doe".to_string(),
        mobile: None,
        work: None,
        email: Some("jane@example.com".to_string()),
        company: None,
        role: None,
        street: None,
        city: None,
        state: None,
        website: None,
        color: Some("#0000FF".to_string()),
    };
    let vcard = generate_vcard(&data);
    let lines: Vec<&str> = vcard.split('\n').collect();
    assert_eq!(
        lines,
        vec![
            "BEGIN:VCARD",
            "VERSION:3.0",
            "FN:Jane Doe",
            "N:Doe;Jane;;;",
            "EMAIL:jane@example.com",
            "END:VCARD",
        ]
    );

    let uri = contact_qr_data_uri(&data).unwrap();
    let colored = decode_data_uri(&uri).to_rgb8();
    let gray = decode_data_uri(&render_qr_data_uri(&vcard, None).unwrap()).to_luma8();
    assert_eq!(gray.dimensions(), colored.dimensions());
    let mut blues = 0u32;
    for (x, y, p) in colored.enumerate_pixels() {
        if gray.get_pixel(x, y).0[0] == 0 {
            assert_eq!(p.0, [0, 0, 255]);
            blues += 1;
        } else {
            assert_eq!(p.0, [255, 255, 255]);
        }
    }
    assert!(blues > 0);
}

#[test]
fn contact_without_color_renders_monochrome() {
    let data = ContactData {
        first_name: "Jane".to_string(),
        last_name: "Doe".to_string(),
        mobile: None,
        work: None,
        email: None,
        company: None,
        role: None,
        street: None,
        city: None,
        state: None,
        website: None,
        color: None,
    };
    let uri = contact_qr_data_uri(&data).unwrap();
    let img = decode_data_uri(&uri);
    assert!(matches!(img, image::DynamicImage::ImageLuma8(_)));
}

#[test]
fn contact_with_malformed_color_renders_black_foreground() {
    let mut data = ContactData {
        first_name: "Jane".to_string(),
        last_name: "Doe".to_string(),
        mobile: None,
        work: None,
        email: None,
        company: None,
        role: None,
        street: None,
        city: None,
        state: None,
        website: None,
        color: Some("red".to_string()),
    };
    let uri = contact_qr_data_uri(&data).unwrap();
    let colored = decode_data_uri(&uri).to_rgb8();
    for p in colored.pixels() {
        assert!(p.0 == [0, 0, 0] || p.0 == [255, 255, 255]);
    }
    // the malformed-color raster equals the explicit-black raster
    data.color = Some("#000000".to_string());
    assert_eq!(uri, contact_qr_data_uri(&data).unwrap());
}
