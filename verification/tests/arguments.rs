use stablediffusion::cli::{
    device_from_lowercase, import_model_name, parse_convert_args, parse_device, parse_model_format, parse_sample_args,
    parse_usize, ModelFormat, SampleArgsError, TorchDevice,
};

fn args(words: &[&str]) -> Vec<String> {
    words.iter().map(|w| w.to_string()).collect()
}

#[test]
fn unsigned_numbers() {
    assert_eq!(parse_usize("20"), Some(20));
    assert_eq!(parse_usize("+5"), Some(5));
    assert_eq!(parse_usize("007"), Some(7));
    assert_eq!(parse_usize(""), None);
    assert_eq!(parse_usize("+"), None);
    assert_eq!(parse_usize("-1"), None);
    assert_eq!(parse_usize("1a"), None);
    assert_eq!(parse_usize(" 1"), None);
    assert_eq!(parse_usize("18446744073709551615"), Some(usize::MAX));
    assert_eq!(parse_usize("18446744073709551616"), None);
    assert_eq!(parse_usize("99999999999999999999999"), None);
    for s in ["0", "42", "+0", "++1", "4_2", "٣", "1.5", "00000000000000000000000000001"] {
        assert_eq!(parse_usize(s), s.parse::<usize>().ok(), "{}", s);
    }
}

#[test]
fn devices() {
    assert_eq!(parse_device("cpu"), Some(TorchDevice::Cpu));
    assert_eq!(parse_device("CPU"), Some(TorchDevice::Cpu));
    assert_eq!(parse_device("Mps"), Some(TorchDevice::Mps));
    assert_eq!(parse_device("cuda"), Some(TorchDevice::Cuda(0)));
    assert_eq!(parse_device("cuda1"), Some(TorchDevice::Cuda(1)));
    assert_eq!(parse_device("CUDA2"), Some(TorchDevice::Cuda(2)));
    assert_eq!(parse_device("cuda:1"), Some(TorchDevice::Cuda(0)));
    assert_eq!(parse_device("gpu"), None);
    assert_eq!(parse_device("cp"), None);
    assert_eq!(parse_device(""), None);
}

#[test]
fn lowercase_device_names() {
    assert_eq!(device_from_lowercase("cpu"), Some(TorchDevice::Cpu));
    assert_eq!(device_from_lowercase("mps"), Some(TorchDevice::Mps));
    assert_eq!(device_from_lowercase("cuda3"), Some(TorchDevice::Cuda(3)));
    assert_eq!(device_from_lowercase("CPU"), None);
    assert_eq!(device_from_lowercase("cudax"), Some(TorchDevice::Cuda(0)));
}

#[test]
fn model_formats() {
    assert_eq!(parse_model_format("burn"), Some(ModelFormat::Burn));
    assert_eq!(parse_model_format("dump"), Some(ModelFormat::Dump));
    assert_eq!(parse_model_format("safetensor"), Some(ModelFormat::Safetensor));
    assert_eq!(parse_model_format("store"), Some(ModelFormat::Store));
    assert_eq!(parse_model_format("safetensors"), None);
    assert_eq!(parse_model_format("Burn"), None);
}

#[test]
fn sample_arguments() {
    let ok = parse_sample_args(&args(&[
        "sample", "burn", "sd.mpk", "7.5", "20", "An ancient mossy stone.", "img",
    ]))
    .unwrap();
    assert_eq!(ok.model_type, "burn");
    assert_eq!(ok.model_name, "sd.mpk");
    assert_eq!(ok.guidance_scale, "7.5");
    assert_eq!(ok.n_steps, 20);
    assert_eq!(ok.prompt, "An ancient mossy stone.");
    assert_eq!(ok.output_image_name, "img");
    assert_eq!(ok.device, TorchDevice::Cuda(0));

    let with_device =
        parse_sample_args(&args(&["sample", "dump", "m", "1", "5", "p", "o", "CPU"])).unwrap();
    assert_eq!(with_device.device, TorchDevice::Cpu);
    assert_eq!(with_device.n_steps, 5);

    assert_eq!(
        parse_sample_args(&args(&["sample", "burn", "m", "1", "5", "p"])),
        Err(SampleArgsError::Usage)
    );
    assert_eq!(
        parse_sample_args(&args(&["sample", "burn", "m", "1", "5", "p", "o", "cpu", "x"])),
        Err(SampleArgsError::Usage)
    );
    assert_eq!(
        parse_sample_args(&args(&["sample", "burn", "m", "1", "five", "p", "o"])),
        Err(SampleArgsError::InvalidSteps)
    );
    assert_eq!(
        parse_sample_args(&args(&["sample", "burn", "m", "1", "five", "p", "o", "tpu"])),
        Err(SampleArgsError::InvalidSteps)
    );
    assert_eq!(
        parse_sample_args(&args(&["sample", "burn", "m", "1", "5", "p", "o", "tpu"])),
        Err(SampleArgsError::UnknownDevice("tpu".to_string()))
    );
}

#[test]
fn convert_and_import_arguments() {
    assert_eq!(
        parse_convert_args(&args(&["convert", "sd-v1-4.safetensors", "sd-v1-4.bpk"])),
        Some(("sd-v1-4.safetensors".to_string(), "sd-v1-4.bpk".to_string()))
    );
    assert_eq!(parse_convert_args(&args(&["convert", "a"])), None);
    assert_eq!(parse_convert_args(&args(&["convert", "a", "b", "c"])), None);
    assert_eq!(
        import_model_name(&args(&["import", "kind", "model.safetensors"])),
        Some("model.safetensors".to_string())
    );
    assert_eq!(import_model_name(&args(&["import", "kind"])), None);
}
