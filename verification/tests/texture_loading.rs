use imagine::texture::{load_texture, TextureError};

#[test]
fn decodes_encoded_pixels_back() {
    // Encode a two-by-one image with known pixels, then decode it through
    // the library.
    let mut img = image::RgbaImage::new(2, 1);
    img.put_pixel(0, 0, image::Rgba([255, 0, 0, 255]));
    img.put_pixel(1, 0, image::Rgba([0, 0, 255, 128]));
    let mut bytes: Vec<u8> = Vec::new();
    img.write_to(
        &mut std::io::Cursor::new(&mut bytes),
        image::ImageOutputFormat::Png,
    )
    .unwrap();

    let texture = load_texture(&bytes).unwrap();
    assert_eq!(texture.width, 2);
    assert_eq!(texture.height, 1);
    assert_eq!(texture.rgba.len(), 8);
    assert_eq!(&texture.rgba[..4], &[255, 0, 0, 255]);
    assert_eq!(&texture.rgba[4..], &[0, 0, 255, 128]);
}

#[test]
fn rejects_undecodable_bytes() {
    let garbage = vec![1u8, 2, 3, 4, 5, 6, 7, 8];
    assert!(matches!(load_texture(&garbage), Err(TextureError::Undecodable)));
}

#[test]
fn graph_accepts_decoded_materials() {
    let mut img = image::RgbaImage::new(1, 1);
    img.put_pixel(0, 0, image::Rgba([10, 20, 30, 255]));
    let mut bytes: Vec<u8> = Vec::new();
    img.write_to(
        &mut std::io::Cursor::new(&mut bytes),
        image::ImageOutputFormat::Png,
    )
    .unwrap();
    let texture = load_texture(&bytes).unwrap();

    let mut graph = imagine::graph::RenderGraph::default();
    let material = imagine::graph::ModelMaterial::new_material2d(65536, 0, texture);
    graph.add_material(String::from("star"), material);
    let name = String::from("star");
    match graph.resource(&name) {
        imagine::graph::RenderResource::Material(m) => match m {
            imagine::graph::ModelMaterial::Material2D(m2) => {
                assert_eq!(m2.color.rgba, vec![10, 20, 30, 255]);
            },
            _ => panic!("expected a 2D material"),
        },
        _ => panic!("expected the material resource"),
    }
}
