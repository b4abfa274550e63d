use stablediffusion::checkpoint::encoder_layer_key;
use stablediffusion::config::{SDConfig, StableDiffusionConfig};
use stablediffusion::image_layout::{split_images, values_per_image};
use stablediffusion::names::{component_path, context_text, image_file_name};

#[test]
fn prompt_is_framed() {
    assert_eq!(
        context_text("An ancient mossy stone."),
        "<|startoftext|>An ancient mossy stone.<|endoftext|>"
    );
}

#[test]
fn unconditional_prompt_is_empty_between_markers() {
    assert_eq!(context_text(""), "<|startoftext|><|endoftext|>");
}

#[test]
fn component_paths() {
    assert_eq!(component_path("models/sd", "autoencoder"), "models/sd/autoencoder");
    assert_eq!(component_path("dump", "unet"), "dump/unet");
    assert_eq!(component_path("", "clip"), "/clip");
}

#[test]
fn image_file_names() {
    assert_eq!(image_file_name("img", 0), "img0.png");
    assert_eq!(image_file_name("out/stone", 12), "out/stone12.png");
    assert_eq!(image_file_name("x", 1907), "x1907.png");
    assert_eq!(image_file_name("", usize::MAX), format!("{}.png", usize::MAX));
    for i in 0..200usize {
        assert_eq!(image_file_name("b", i), format!("{}{}.png", "b", i));
    }
}

#[test]
fn image_buffers() {
    assert_eq!(values_per_image(), 3 * 512 * 512);
    let values: Vec<u8> = (0..7).collect();
    assert_eq!(split_images(&values, 2, 3), vec![vec![0, 1, 2], vec![3, 4, 5]]);
    assert_eq!(split_images(&values, 0, 3), Vec::<Vec<u8>>::new());
    assert_eq!(split_images(&values, 3, 0), vec![Vec::<u8>::new(); 3]);
    let floats: Vec<f32> = vec![0.5, 1.5, 2.5, 3.5];
    assert_eq!(split_images(&floats, 2, 2), vec![vec![0.5, 1.5], vec![2.5, 3.5]]);
}

#[test]
fn encoder_layer_keys() {
    assert_eq!(
        encoder_layer_key("sd.encoder.layer.0.weight"),
        Some("encoder.layer.0.weight".to_string())
    );
    assert_eq!(
        encoder_layer_key("encoder.layer.3.bias"),
        Some("encoder.layer.3.bias".to_string())
    );
    assert_eq!(
        encoder_layer_key("sd.sd.encoder.layer.1"),
        Some("encoder.layer.1".to_string())
    );
    assert_eq!(encoder_layer_key("sd.decoder.layer.0"), None);
    assert_eq!(encoder_layer_key("alphas_cumprod"), None);
    assert_eq!(encoder_layer_key("xsd.encoder.layer.2"), None);
    for key in ["sd.encoder.layer.sd.x", "ssd.d.encoder.layer.", "sdsd..encoder.layer.q", "sd."] {
        let stripped = key.replace("sd.", "");
        let expected = if stripped.starts_with("encoder.layer.") { Some(stripped) } else { None };
        assert_eq!(encoder_layer_key(key), expected);
    }
}

#[test]
fn configs() {
    let config = StableDiffusionConfig::new(1000);
    assert_eq!(config.train_steps(), 1000);
    assert_eq!(SDConfig::new(), SDConfig {});
}
