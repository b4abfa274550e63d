use stablediffusion::remap_rules::{
    key_remap_rules_autoencoder, key_remap_rules_clip, key_remap_rules_sd, key_remap_rules_unet,
    safetensors_import_key_remaps,
};
use stablediffusion::remapper::{
    compile_key_remapper, remap_tensor_names, sd_key_remapper, sd_tensor_names, RemapError,
};

#[test]
fn tables_have_their_rules() {
    assert_eq!(key_remap_rules_clip().len(), 13);
    assert_eq!(key_remap_rules_autoencoder().len(), 34);
    assert_eq!(key_remap_rules_unet().len(), 67);
    assert_eq!(
        key_remap_rules_unet()[0],
        (r"model\.diffusion_model\.time_embed\.0", "diffusion.lin1_time_embed")
    );
    assert_eq!(
        key_remap_rules_unet()[66],
        ("norm(.*?).bias", "norm$1.beta")
    );
    assert_eq!(
        key_remap_rules_clip()[4],
        (
            r"cond_stage_model\.transformer\.text_model\.encoder\.layers\.(\d+)\.self_attn\.k_proj",
            "blocks.$1.attn.key"
        )
    );
    assert_eq!(
        key_remap_rules_autoencoder()[4],
        (r"first_stage_model\.decoder\.up\.0\.block\.0\.(.*)", "decoder.blocks.3.res1.$1")
    );
}

#[test]
fn sd_rules_prefix_clip_and_autoencoder_targets() {
    let rules = key_remap_rules_sd();
    assert_eq!(rules.len(), 13 + 34 + 67 + 1);
    assert_eq!(
        rules[0],
        (
            r"cond_stage_model\.transformer\.text_model\.final_layer_norm\.bias".to_string(),
            "clip.layer_norm.beta".to_string()
        )
    );
    assert_eq!(
        rules[13],
        (
            r"first_stage_model\.post_quant_conv".to_string(),
            "autoencoder.post_quant_conv".to_string()
        )
    );
    assert_eq!(
        rules[47],
        (
            r"model\.diffusion_model\.time_embed\.0".to_string(),
            "diffusion.lin1_time_embed".to_string()
        )
    );
    assert_eq!(
        rules[114],
        ("alphas_cumprod".to_string(), "alpha_cumulative_products".to_string())
    );
    for (i, (pattern, target)) in rules.iter().enumerate() {
        if i < 13 {
            assert_eq!(pattern, key_remap_rules_clip()[i].0);
            assert_eq!(target, &format!("clip.{}", key_remap_rules_clip()[i].1));
        } else if i < 47 {
            assert_eq!(pattern, key_remap_rules_autoencoder()[i - 13].0);
            assert_eq!(target, &format!("autoencoder.{}", key_remap_rules_autoencoder()[i - 13].1));
        } else if i < 114 {
            assert_eq!(pattern, key_remap_rules_unet()[i - 47].0);
            assert_eq!(target, key_remap_rules_unet()[i - 47].1);
        }
    }
}

#[test]
fn import_remaps() {
    assert_eq!(
        safetensors_import_key_remaps(),
        &[
            ("alphas_cumprod", "alpha_cumulative_products"),
            ("first_stage_model", "autoencoder"),
            ("attn_1\\.(.+)", "attn.$1"),
        ][..]
    );
}

#[test]
fn sd_remapper_holds_every_rule_in_order() {
    let remapper = sd_key_remapper().expect("the rules compile");
    let rules = key_remap_rules_sd();
    assert_eq!(remapper.key_remapper().patterns.len(), rules.len());
    for ((regex, target), (pattern, replacement)) in remapper.key_remapper().patterns.iter().zip(rules.iter()) {
        assert_eq!(regex.as_str(), pattern);
        assert_eq!(target, replacement);
    }
}

#[test]
fn invalid_pattern_is_refused() {
    let rules = vec![
        ("fine".to_string(), "ok".to_string()),
        ("(unclosed".to_string(), "x".to_string()),
    ];
    assert_eq!(compile_key_remapper(rules).err(), Some(RemapError::InvalidPattern));
}

#[test]
fn empty_rule_list_compiles() {
    let remapper = compile_key_remapper(Vec::new()).expect("nothing to compile");
    assert!(remapper.key_remapper().is_empty());
}

#[test]
fn checkpoint_names_are_renamed_for_the_model() {
    let expected: Vec<(&str, &str)> = vec![
        ("model.diffusion_model.input_blocks.4.0.in_layers.0.weight", "diffusion.input_blocks.rt3.res.norm_in.gamma"),
        ("model.diffusion_model.input_blocks.4.1.transformer_blocks.0.attn1.to_q.weight", "diffusion.input_blocks.rt3.transformer.transformer.attn1.query.weight"),
        ("model.diffusion_model.middle_block.1.proj_in.weight", "diffusion.middle_block.transformer.proj_in.weight"),
        ("model.diffusion_model.output_blocks.2.1.conv.weight", "diffusion.output_blocks.ru.upsample.conv.weight"),
        ("model.diffusion_model.time_embed.0.weight", "diffusion.lin1_time_embed.weight"),
        ("model.diffusion_model.out.0.bias", "diffusion.norm_out.beta"),
        ("first_stage_model.decoder.up.0.block.1.conv1.weight", "autoencoder.decoder.blocks.3.res2.conv1.weight"),
        ("first_stage_model.encoder.down.2.downsample.conv.bias", "autoencoder.encoder.blocks.2.downsampler.conv.bias"),
        ("first_stage_model.decoder.mid.attn_1.q.weight", "autoencoder.decoder.mid.attn.q.weight"),
        ("cond_stage_model.transformer.text_model.encoder.layers.11.self_attn.k_proj.weight", "clip.blocks.11.attn.key.weight"),
        ("cond_stage_model.transformer.text_model.final_layer_norm.weight", "clip.layer_norm.gamma"),
        ("alphas_cumprod", "alpha_cumulative_products"),
        ("betas", "betas"),
        ("decoder.up.0.block.1.conv1.weight", "decoder.up.0.block.1.conv1.weight"),
    ];
    let names: Vec<String> = expected.iter().map(|(old, _)| old.to_string()).collect();
    let renamed = sd_tensor_names(names).expect("the rules compile");
    assert_eq!(renamed.len(), expected.len());
    for ((new, old), (expected_old, expected_new)) in renamed.iter().zip(expected.iter()) {
        assert_eq!(old, expected_old);
        assert_eq!(new, expected_new);
    }
}

#[test]
fn rules_apply_in_order_to_every_match() {
    let remapper = compile_key_remapper(vec![
        ("a".to_string(), "b".to_string()),
        ("b(\\d)".to_string(), "c$1".to_string()),
    ])
    .unwrap();
    let renamed = remap_tensor_names(
        &remapper,
        vec!["a1.a2".to_string(), "x.y".to_string(), String::new()],
    );
    assert_eq!(
        renamed,
        vec![
            ("c1.c2".to_string(), "a1.a2".to_string()),
            ("x.y".to_string(), "x.y".to_string()),
            (String::new(), String::new()),
        ]
    );
}

#[test]
fn no_rules_keep_every_name() {
    let remapper = compile_key_remapper(Vec::new()).unwrap();
    let names = vec!["encoder.layer.0.weight".to_string(), "a..b".to_string()];
    let renamed = remap_tensor_names(&remapper, names.clone());
    assert_eq!(renamed, names.iter().map(|n| (n.clone(), n.clone())).collect::<Vec<_>>());
}
