//! Tables of tensor-name remapping rules used when loading a Stable Diffusion
//! checkpoint: each rule is a `(regex pattern, replacement)` pair, and the
//! rules are applied to every tensor name in the order in which they stand.

use vstd::prelude::*;

use crate::names::{decimal, digit_char};

verus! {

/// Views of a table of `(pattern, replacement)` pairs of string slices.
pub open spec fn pairs_view(rules: Seq<(&'static str, &'static str)>) -> Seq<(Seq<char>, Seq<char>)> {
    rules.map_values(|r: (&'static str, &'static str)| (r.0@, r.1@))
}

/// Views of a list of `(pattern, replacement)` pairs of owned strings.
pub open spec fn owned_pairs_view(rules: Seq<(String, String)>) -> Seq<(Seq<char>, Seq<char>)> {
    rules.map_values(|r: (String, String)| (r.0@, r.1@))
}

/// The rules with `prefix` put in front of every replacement; the patterns
/// are left as they are.
pub open spec fn with_target_prefix(
    rules: Seq<(Seq<char>, Seq<char>)>,
    prefix: Seq<char>,
) -> Seq<(Seq<char>, Seq<char>)> {
    rules.map_values(|r: (Seq<char>, Seq<char>)| (r.0, prefix + r.1))
}

/// The rule that renames the noise schedule of the checkpoint.
pub open spec fn spec_alphas_rule() -> (Seq<char>, Seq<char>) {
    ("alphas_cumprod"@, "alpha_cumulative_products"@)
}

/// The full rule list for a Stable Diffusion checkpoint: the CLIP rules with
/// their targets placed under `clip.`, the autoencoder rules under
/// `autoencoder.`, the U-Net rules unchanged, and last the schedule rule.
pub open spec fn spec_sd_rules() -> Seq<(Seq<char>, Seq<char>)> {
    with_target_prefix(spec_clip_rules(), "clip."@)
        + with_target_prefix(spec_autoencoder_rules(), "autoencoder."@)
        + spec_unet_rules()
        + seq![spec_alphas_rule()]
}

/// The table returned by `key_remap_rules_unet`, one `(pattern, replacement)` pair per rule.
pub open spec fn spec_unet_rules() -> Seq<(Seq<char>, Seq<char>)> {
    seq![
        (r"model\.diffusion_model\.time_embed\.0"@, "diffusion.lin1_time_embed"@),
        (r"model\.diffusion_model\.time_embed\.2"@, "diffusion.lin2_time_embed"@),
        (r"model\.diffusion_model\.out\.0"@, "diffusion.norm_out"@),
        (r"model\.diffusion_model\.out\.2"@, "diffusion.conv_out"@),
        (r"model\.diffusion_model\.input_blocks"@, "diffusion.input_blocks"@),
        (r"model\.diffusion_model\.output_blocks"@, "diffusion.output_blocks"@),
        (r"model\.diffusion_model\.middle_block"@, "diffusion.middle_block"@),
        (r"input_blocks\.0\.0"@, "input_blocks.conv"@),
        (r"input_blocks\.1\."@, "input_blocks.rt1."@),
        (r"input_blocks\.2\."@, "input_blocks.rt2."@),
        (r"input_blocks\.3\.0.op"@, "input_blocks.d1"@),
        (r"input_blocks\.4\."@, "input_blocks.rt3."@),
        (r"input_blocks\.5\."@, "input_blocks.rt4."@),
        (r"input_blocks\.6\.0.op"@, "input_blocks.d2"@),
        (r"input_blocks\.7\."@, "input_blocks.rt5."@),
        (r"input_blocks\.8\."@, "input_blocks.rt6."@),
        (r"input_blocks\.9\.0.op"@, "input_blocks.d3"@),
        (r"input_blocks\.10\."@, "input_blocks.r1."@),
        (r"input_blocks\.11\."@, "input_blocks.r2."@),
        (r"output_blocks\.0\."@, "output_blocks.r1."@),
        (r"output_blocks\.1\."@, "output_blocks.r2."@),
        (r"output_blocks\.2\."@, "output_blocks.ru."@),
        (r"output_blocks\.3\."@, "output_blocks.rt1."@),
        (r"output_blocks\.4\."@, "output_blocks.rt2."@),
        (r"output_blocks\.5\."@, "output_blocks.rtu1."@),
        (r"output_blocks\.6\."@, "output_blocks.rt3."@),
        (r"output_blocks\.7\."@, "output_blocks.rt4."@),
        (r"output_blocks\.8\."@, "output_blocks.rtu2."@),
        (r"output_blocks\.9\."@, "output_blocks.rt5."@),
        (r"output_blocks\.10\."@, "output_blocks.rt6."@),
        (r"output_blocks\.11\."@, "output_blocks.rt7."@),
        (r"(rt\d+|ru|rtu\d+)\.0\.in_layers\.0"@, "$1.res.norm_in"@),
        (r"(rt\d+|ru|rtu\d+)\.0\.in_layers\.2"@, "$1.res.conv_in"@),
        (r"(rt\d+|ru|rtu\d+)\.0\.emb_layers\.1"@, "$1.res.lin_embed"@),
        (r"(rt\d+|ru|rtu\d+)\.0\.out_layers\.0"@, "$1.res.norm_out"@),
        (r"(rt\d+|ru|rtu\d+)\.0\.out_layers\.3"@, "$1.res.conv_out"@),
        (r"(rt\d+|ru|rtu\d+)\.0\.skip_connection"@, "$1.res.skip_connection"@),
        (r"(ru)\.1"@, "$1.upsample"@),
        (r"(rtu\d+)\.2"@, "$1.upsample"@),
        (r"(r\d+)\.0\.in_layers\.0"@, "$1.norm_in"@),
        (r"(r\d+)\.0\.in_layers\.2"@, "$1.conv_in"@),
        (r"(r\d+)\.0\.emb_layers\.1"@, "$1.lin_embed"@),
        (r"(r\d+)\.0\.out_layers\.0"@, "$1.norm_out"@),
        (r"(r\d+)\.0\.out_layers\.3"@, "$1.conv_out"@),
        (r"(r\d+)\.0\.skip_connection"@, "$1.skip_connection"@),
        (r"middle_block\.0\.in_layers\.0"@, "middle_block.res1.norm_in"@),
        (r"middle_block\.0\.in_layers\.2"@, "middle_block.res1.conv_in"@),
        (r"middle_block\.0\.emb_layers\.1"@, "middle_block.res1.lin_embed"@),
        (r"middle_block\.0\.out_layers\.0"@, "middle_block.res1.norm_out"@),
        (r"middle_block\.0\.out_layers\.3"@, "middle_block.res1.conv_out"@),
        (r"middle_block\.1"@, "middle_block.transformer"@),
        (r"middle_block\.2\.in_layers\.0"@, "middle_block.res2.norm_in"@),
        (r"middle_block\.2\.in_layers\.2"@, "middle_block.res2.conv_in"@),
        (r"middle_block\.2\.emb_layers\.1"@, "middle_block.res2.lin_embed"@),
        (r"middle_block\.2\.out_layers\.0"@, "middle_block.res2.norm_out"@),
        (r"middle_block\.2\.out_layers\.3"@, "middle_block.res2.conv_out"@),
        (r"middle_block\.1"@, "$1.transformer"@),
        (r"(rt\d+|rtu\d+)\.1"@, "$1.transformer"@),
        (r"(.*?).transformer_blocks.0"@, "$1.transformer"@),
        (r"transformer.attn(\d+)\.to_q"@, "transformer.attn$1.query"@),
        (r"transformer.attn(\d+)\.to_k"@, "transformer.attn$1.key"@),
        (r"transformer.attn(\d+)\.to_v"@, "transformer.attn$1.value"@),
        (r"transformer.attn(\d+)\.to_out.0"@, "transformer.attn$1.out"@),
        (r"transformer.ff\.net.0.proj"@, "transformer.mlp.geglu.proj"@),
        (r"transformer.ff\.net.2"@, "transformer.mlp.lin"@),
        ("norm(.*?).weight"@, "norm$1.gamma"@),
        ("norm(.*?).bias"@, "norm$1.beta"@),
    ]
}

/// Remapping rules from the checkpoint names of the diffusion U-Net to the
/// names of the library's U-Net module, applied in this order.
pub fn key_remap_rules_unet() -> (rules: &'static [(&'static str, &'static str)])
    ensures
        pairs_view(rules@) == spec_unet_rules(),
{
    let table: &'static [(&'static str, &'static str)] = &[
        (r"model\.diffusion_model\.time_embed\.0", "diffusion.lin1_time_embed"),
        (r"model\.diffusion_model\.time_embed\.2", "diffusion.lin2_time_embed"),
        (r"model\.diffusion_model\.out\.0", "diffusion.norm_out"),
        (r"model\.diffusion_model\.out\.2", "diffusion.conv_out"),
        (r"model\.diffusion_model\.input_blocks", "diffusion.input_blocks"),
        (r"model\.diffusion_model\.output_blocks", "diffusion.output_blocks"),
        (r"model\.diffusion_model\.middle_block", "diffusion.middle_block"),
        (r"input_blocks\.0\.0", "input_blocks.conv"),
        (r"input_blocks\.1\.", "input_blocks.rt1."),
        (r"input_blocks\.2\.", "input_blocks.rt2."),
        (r"input_blocks\.3\.0.op", "input_blocks.d1"),
        (r"input_blocks\.4\.", "input_blocks.rt3."),
        (r"input_blocks\.5\.", "input_blocks.rt4."),
        (r"input_blocks\.6\.0.op", "input_blocks.d2"),
        (r"input_blocks\.7\.", "input_blocks.rt5."),
        (r"input_blocks\.8\.", "input_blocks.rt6."),
        (r"input_blocks\.9\.0.op", "input_blocks.d3"),
        (r"input_blocks\.10\.", "input_blocks.r1."),
        (r"input_blocks\.11\.", "input_blocks.r2."),
        (r"output_blocks\.0\.", "output_blocks.r1."),
        (r"output_blocks\.1\.", "output_blocks.r2."),
        (r"output_blocks\.2\.", "output_blocks.ru."),
        (r"output_blocks\.3\.", "output_blocks.rt1."),
        (r"output_blocks\.4\.", "output_blocks.rt2."),
        (r"output_blocks\.5\.", "output_blocks.rtu1."),
        (r"output_blocks\.6\.", "output_blocks.rt3."),
        (r"output_blocks\.7\.", "output_blocks.rt4."),
        (r"output_blocks\.8\.", "output_blocks.rtu2."),
        (r"output_blocks\.9\.", "output_blocks.rt5."),
        (r"output_blocks\.10\.", "output_blocks.rt6."),
        (r"output_blocks\.11\.", "output_blocks.rt7."),
        (r"(rt\d+|ru|rtu\d+)\.0\.in_layers\.0", "$1.res.norm_in"),
        (r"(rt\d+|ru|rtu\d+)\.0\.in_layers\.2", "$1.res.conv_in"),
        (r"(rt\d+|ru|rtu\d+)\.0\.emb_layers\.1", "$1.res.lin_embed"),
        (r"(rt\d+|ru|rtu\d+)\.0\.out_layers\.0", "$1.res.norm_out"),
        (r"(rt\d+|ru|rtu\d+)\.0\.out_layers\.3", "$1.res.conv_out"),
        (r"(rt\d+|ru|rtu\d+)\.0\.skip_connection", "$1.res.skip_connection"),
        (r"(ru)\.1", "$1.upsample"),
        (r"(rtu\d+)\.2", "$1.upsample"),
        (r"(r\d+)\.0\.in_layers\.0", "$1.norm_in"),
        (r"(r\d+)\.0\.in_layers\.2", "$1.conv_in"),
        (r"(r\d+)\.0\.emb_layers\.1", "$1.lin_embed"),
        (r"(r\d+)\.0\.out_layers\.0", "$1.norm_out"),
        (r"(r\d+)\.0\.out_layers\.3", "$1.conv_out"),
        (r"(r\d+)\.0\.skip_connection", "$1.skip_connection"),
        (r"middle_block\.0\.in_layers\.0", "middle_block.res1.norm_in"),
        (r"middle_block\.0\.in_layers\.2", "middle_block.res1.conv_in"),
        (r"middle_block\.0\.emb_layers\.1", "middle_block.res1.lin_embed"),
        (r"middle_block\.0\.out_layers\.0", "middle_block.res1.norm_out"),
        (r"middle_block\.0\.out_layers\.3", "middle_block.res1.conv_out"),
        (r"middle_block\.1", "middle_block.transformer"),
        (r"middle_block\.2\.in_layers\.0", "middle_block.res2.norm_in"),
        (r"middle_block\.2\.in_layers\.2", "middle_block.res2.conv_in"),
        (r"middle_block\.2\.emb_layers\.1", "middle_block.res2.lin_embed"),
        (r"middle_block\.2\.out_layers\.0", "middle_block.res2.norm_out"),
        (r"middle_block\.2\.out_layers\.3", "middle_block.res2.conv_out"),
        (r"middle_block\.1", "$1.transformer"),
        (r"(rt\d+|rtu\d+)\.1", "$1.transformer"),
        (r"(.*?).transformer_blocks.0", "$1.transformer"),
        (r"transformer.attn(\d+)\.to_q", "transformer.attn$1.query"),
        (r"transformer.attn(\d+)\.to_k", "transformer.attn$1.key"),
        (r"transformer.attn(\d+)\.to_v", "transformer.attn$1.value"),
        (r"transformer.attn(\d+)\.to_out.0", "transformer.attn$1.out"),
        (r"transformer.ff\.net.0.proj", "transformer.mlp.geglu.proj"),
        (r"transformer.ff\.net.2", "transformer.mlp.lin"),
        ("norm(.*?).weight", "norm$1.gamma"),
        ("norm(.*?).bias", "norm$1.beta"),
    ];
    table
}

/// The table returned by `key_remap_rules_autoencoder`, one `(pattern, replacement)` pair per rule.
pub open spec fn spec_autoencoder_rules() -> Seq<(Seq<char>, Seq<char>)> {
    seq![
        (r"first_stage_model\.post_quant_conv"@, "post_quant_conv"@),
        (r"first_stage_model\.quant_conv"@, "quant_conv"@),
        (r"first_stage_model\.decoder\.conv_in"@, "decoder.conv_in"@),
        (r"first_stage_model\.decoder\.conv_out"@, "decoder.conv_out"@),
        (r"first_stage_model\.decoder\.up\.0\.block\.0\.(.*)"@, "decoder.blocks.3.res1.$1"@),
        (r"first_stage_model\.decoder\.up\.0\.block\.1\.(.*)"@, "decoder.blocks.3.res2.$1"@),
        (r"first_stage_model\.decoder\.up\.0\.block\.2\.(.*)"@, "decoder.blocks.3.res3.$1"@),
        (r"first_stage_model\.decoder\.up\.1\.block\.0\.(.*)"@, "decoder.blocks.2.res1.$1"@),
        (r"first_stage_model\.decoder\.up\.1\.block\.1\.(.*)"@, "decoder.blocks.2.res2.$1"@),
        (r"first_stage_model\.decoder\.up\.1\.block\.2\.(.*)"@, "decoder.blocks.2.res3.$1"@),
        (r"first_stage_model\.decoder\.up\.1\.upsample\.conv\.(.*)"@, "decoder.blocks.2.upsampler.$1"@),
        (r"first_stage_model\.decoder\.up\.2\.block\.0\.(.*)"@, "decoder.blocks.1.res1.$1"@),
        (r"first_stage_model\.decoder\.up\.2\.block\.1\.(.*)"@, "decoder.blocks.1.res2.$1"@),
        (r"first_stage_model\.decoder\.up\.2\.block\.2\.(.*)"@, "decoder.blocks.1.res3.$1"@),
        (r"first_stage_model\.decoder\.up\.2\.upsample\.conv\.(.*)"@, "decoder.blocks.1.upsampler.$1"@),
        (r"first_stage_model\.decoder\.up\.3\.block\.0\.(.*)"@, "decoder.blocks.0.res1.$1"@),
        (r"first_stage_model\.decoder\.up\.3\.block\.1\.(.*)"@, "decoder.blocks.0.res2.$1"@),
        (r"first_stage_model\.decoder\.up\.3\.block\.2\.(.*)"@, "decoder.blocks.0.res3.$1"@),
        (r"first_stage_model\.decoder\.up\.3\.upsample\.conv\.(.*)"@, "decoder.blocks.0.upsampler.$1"@),
        (r"first_stage_model\.decoder\.norm_out"@, "decoder.norm_out"@),
        (r"first_stage_model\.decoder\.mid\.block_(1|2)\.(.*)"@, "decoder.mid.block_$1.$2"@),
        (r"first_stage_model\.decoder\.mid\.block_(1|2)\.(.*)"@, "decoder.mid.block_$1.$2"@),
        (r"first_stage_model\.decoder\.mid\.attn_1\.norm"@, "decoder.mid.attn.norm"@),
        (r"first_stage_model\.decoder\.mid\.attn_1\.(q|k|v|proj_out)"@, "decoder.mid.attn.$1"@),
        (r"first_stage_model\.encoder\.conv_in"@, "encoder.conv_in"@),
        (r"first_stage_model\.encoder\.conv_out"@, "encoder.conv_out"@),
        (r"first_stage_model\.encoder\.down\.(\d+)\.block\.0\.(.*)"@, "encoder.blocks.$1.res1.$2"@),
        (r"first_stage_model\.encoder\.down\.(\d+)\.block\.1\.(.*)"@, "encoder.blocks.$1.res2.$2"@),
        (r"first_stage_model\.encoder\.down\.(\d+)\.downsample\.conv\.(.*)"@, "encoder.blocks.$1.downsampler.conv.$2"@),
        (r"first_stage_model\.encoder\.norm_out"@, "encoder.norm_out"@),
        (r"first_stage_model\.encoder\.mid\.block_(1|2)\.(.*)"@, "encoder.mid.block_$1.$2"@),
        (r"first_stage_model\.encoder\.mid\.block_(1|2)\.(.*)"@, "encoder.mid.block_$1.$2"@),
        (r"first_stage_model\.encoder\.mid\.attn_1\.norm"@, "encoder.mid.attn.norm"@),
        (r"first_stage_model\.encoder\.mid\.attn_1\.(q|k|v|proj_out)"@, "encoder.mid.attn.$1"@),
    ]
}

/// Remapping rules from the checkpoint names of the first-stage autoencoder
/// (encoder, decoder and their middle blocks) to the autoencoder module's names.
pub fn key_remap_rules_autoencoder() -> (rules: &'static [(&'static str, &'static str)])
    ensures
        pairs_view(rules@) == spec_autoencoder_rules(),
{
    let table: &'static [(&'static str, &'static str)] = &[
        (r"first_stage_model\.post_quant_conv", "post_quant_conv"),
        (r"first_stage_model\.quant_conv", "quant_conv"),
        (r"first_stage_model\.decoder\.conv_in", "decoder.conv_in"),
        (r"first_stage_model\.decoder\.conv_out", "decoder.conv_out"),
        (r"first_stage_model\.decoder\.up\.0\.block\.0\.(.*)", "decoder.blocks.3.res1.$1"),
        (r"first_stage_model\.decoder\.up\.0\.block\.1\.(.*)", "decoder.blocks.3.res2.$1"),
        (r"first_stage_model\.decoder\.up\.0\.block\.2\.(.*)", "decoder.blocks.3.res3.$1"),
        (r"first_stage_model\.decoder\.up\.1\.block\.0\.(.*)", "decoder.blocks.2.res1.$1"),
        (r"first_stage_model\.decoder\.up\.1\.block\.1\.(.*)", "decoder.blocks.2.res2.$1"),
        (r"first_stage_model\.decoder\.up\.1\.block\.2\.(.*)", "decoder.blocks.2.res3.$1"),
        (r"first_stage_model\.decoder\.up\.1\.upsample\.conv\.(.*)", "decoder.blocks.2.upsampler.$1"),
        (r"first_stage_model\.decoder\.up\.2\.block\.0\.(.*)", "decoder.blocks.1.res1.$1"),
        (r"first_stage_model\.decoder\.up\.2\.block\.1\.(.*)", "decoder.blocks.1.res2.$1"),
        (r"first_stage_model\.decoder\.up\.2\.block\.2\.(.*)", "decoder.blocks.1.res3.$1"),
        (r"first_stage_model\.decoder\.up\.2\.upsample\.conv\.(.*)", "decoder.blocks.1.upsampler.$1"),
        (r"first_stage_model\.decoder\.up\.3\.block\.0\.(.*)", "decoder.blocks.0.res1.$1"),
        (r"first_stage_model\.decoder\.up\.3\.block\.1\.(.*)", "decoder.blocks.0.res2.$1"),
        (r"first_stage_model\.decoder\.up\.3\.block\.2\.(.*)", "decoder.blocks.0.res3.$1"),
        (r"first_stage_model\.decoder\.up\.3\.upsample\.conv\.(.*)", "decoder.blocks.0.upsampler.$1"),
        (r"first_stage_model\.decoder\.norm_out", "decoder.norm_out"),
        (r"first_stage_model\.decoder\.mid\.block_(1|2)\.(.*)", "decoder.mid.block_$1.$2"),
        (r"first_stage_model\.decoder\.mid\.block_(1|2)\.(.*)", "decoder.mid.block_$1.$2"),
        (r"first_stage_model\.decoder\.mid\.attn_1\.norm", "decoder.mid.attn.norm"),
        (r"first_stage_model\.decoder\.mid\.attn_1\.(q|k|v|proj_out)", "decoder.mid.attn.$1"),
        (r"first_stage_model\.encoder\.conv_in", "encoder.conv_in"),
        (r"first_stage_model\.encoder\.conv_out", "encoder.conv_out"),
        (r"first_stage_model\.encoder\.down\.(\d+)\.block\.0\.(.*)", "encoder.blocks.$1.res1.$2"),
        (r"first_stage_model\.encoder\.down\.(\d+)\.block\.1\.(.*)", "encoder.blocks.$1.res2.$2"),
        (r"first_stage_model\.encoder\.down\.(\d+)\.downsample\.conv\.(.*)", "encoder.blocks.$1.downsampler.conv.$2"),
        (r"first_stage_model\.encoder\.norm_out", "encoder.norm_out"),
        (r"first_stage_model\.encoder\.mid\.block_(1|2)\.(.*)", "encoder.mid.block_$1.$2"),
        (r"first_stage_model\.encoder\.mid\.block_(1|2)\.(.*)", "encoder.mid.block_$1.$2"),
        (r"first_stage_model\.encoder\.mid\.attn_1\.norm", "encoder.mid.attn.norm"),
        (r"first_stage_model\.encoder\.mid\.attn_1\.(q|k|v|proj_out)", "encoder.mid.attn.$1"),
    ];
    table
}

/// The table returned by `key_remap_rules_clip`, one `(pattern, replacement)` pair per rule.
pub open spec fn spec_clip_rules() -> Seq<(Seq<char>, Seq<char>)> {
    seq![
        (r"cond_stage_model\.transformer\.text_model\.final_layer_norm\.bias"@, "layer_norm.beta"@),
        (r"cond_stage_model\.transformer\.text_model\.final_layer_norm\.weight"@, "layer_norm.gamma"@),
        (r"cond_stage_model\.transformer\.text_model\.embeddings\.position_embedding\.weight"@, "position_embedding"@),
        (r"cond_stage_model\.transformer\.text_model\.embeddings\.token_embedding"@, "token_embedding"@),
        (r"cond_stage_model\.transformer\.text_model\.encoder\.layers\.(\d+)\.self_attn\.k_proj"@, "blocks.$1.attn.key"@),
        (r"cond_stage_model\.transformer\.text_model\.encoder\.layers\.(\d+)\.self_attn\.out_proj"@, "blocks.$1.attn.out"@),
        (r"cond_stage_model\.transformer\.text_model\.encoder\.layers\.(\d+)\.self_attn\.q_proj"@, "blocks.$1.attn.query"@),
        (r"cond_stage_model\.transformer\.text_model\.encoder\.layers\.(\d+)\.self_attn\.v_proj"@, "blocks.$1.attn.value"@),
        (r"cond_stage_model\.transformer\.text_model\.encoder\.layers\.(\d+)\.layer_norm1\.bias"@, "blocks.$1.attn_ln.beta"@),
        (r"cond_stage_model\.transformer\.text_model\.encoder\.layers\.(\d+)\.layer_norm1\.weight"@, "blocks.$1.attn_ln.gamma"@),
        (r"cond_stage_model\.transformer\.text_model\.encoder\.layers\.(\d+)\.mlp\.(.*)"@, "blocks.$1.mlp.$2"@),
        (r"cond_stage_model\.transformer\.text_model\.encoder\.layers\.(\d+)\.layer_norm2\.bias"@, "blocks.$1.mlp_ln.beta"@),
        (r"cond_stage_model\.transformer\.text_model\.encoder\.layers\.(\d+)\.layer_norm2\.weight"@, "blocks.$1.mlp_ln.gamma"@),
    ]
}

/// Remapping rules from the checkpoint names of the CLIP text transformer
/// to the CLIP module's names.
pub fn key_remap_rules_clip() -> (rules: &'static [(&'static str, &'static str)])
    ensures
        pairs_view(rules@) == spec_clip_rules(),
{
    let table: &'static [(&'static str, &'static str)] = &[
        (r"cond_stage_model\.transformer\.text_model\.final_layer_norm\.bias", "layer_norm.beta"),
        (r"cond_stage_model\.transformer\.text_model\.final_layer_norm\.weight", "layer_norm.gamma"),
        (r"cond_stage_model\.transformer\.text_model\.embeddings\.position_embedding\.weight", "position_embedding"),
        (r"cond_stage_model\.transformer\.text_model\.embeddings\.token_embedding", "token_embedding"),
        (r"cond_stage_model\.transformer\.text_model\.encoder\.layers\.(\d+)\.self_attn\.k_proj", "blocks.$1.attn.key"),
        (r"cond_stage_model\.transformer\.text_model\.encoder\.layers\.(\d+)\.self_attn\.out_proj", "blocks.$1.attn.out"),
        (r"cond_stage_model\.transformer\.text_model\.encoder\.layers\.(\d+)\.self_attn\.q_proj", "blocks.$1.attn.query"),
        (r"cond_stage_model\.transformer\.text_model\.encoder\.layers\.(\d+)\.self_attn\.v_proj", "blocks.$1.attn.value"),
        (r"cond_stage_model\.transformer\.text_model\.encoder\.layers\.(\d+)\.layer_norm1\.bias", "blocks.$1.attn_ln.beta"),
        (r"cond_stage_model\.transformer\.text_model\.encoder\.layers\.(\d+)\.layer_norm1\.weight", "blocks.$1.attn_ln.gamma"),
        (r"cond_stage_model\.transformer\.text_model\.encoder\.layers\.(\d+)\.mlp\.(.*)", "blocks.$1.mlp.$2"),
        (r"cond_stage_model\.transformer\.text_model\.encoder\.layers\.(\d+)\.layer_norm2\.bias", "blocks.$1.mlp_ln.beta"),
        (r"cond_stage_model\.transformer\.text_model\.encoder\.layers\.(\d+)\.layer_norm2\.weight", "blocks.$1.mlp_ln.gamma"),
    ];
    table
}

/// The table returned by `safetensors_import_key_remaps`.
pub open spec fn spec_import_rules() -> Seq<(Seq<char>, Seq<char>)> {
    seq![
        ("alphas_cumprod"@, "alpha_cumulative_products"@),
        ("first_stage_model"@, "autoencoder"@),
        ("attn_1\\.(.+)"@, "attn.$1"@),
    ]
}

/// The key remappings used when a safetensors checkpoint is imported
/// directly into the schedule-and-autoencoder model: the noise schedule, the
/// autoencoder's prefix, and its attention blocks, in this order.
pub fn safetensors_import_key_remaps() -> (rules: &'static [(&'static str, &'static str)])
    ensures
        pairs_view(rules@) == spec_import_rules(),
{
    let table: &'static [(&'static str, &'static str)] = &[
        ("alphas_cumprod", "alpha_cumulative_products"),
        ("first_stage_model", "autoencoder"),
        ("attn_1\\.(.+)", "attn.$1"),
    ];
    table
}

/// Appends the rules of `table` to `rules`, with `prefix` put in front of
/// each replacement.
fn push_prefixed(rules: &mut Vec<(String, String)>, table: &[(&'static str, &'static str)], prefix: &str)
    ensures
        owned_pairs_view(final(rules)@) == owned_pairs_view(old(rules)@) + with_target_prefix(
            pairs_view(table@),
            prefix@,
        ),
{
    let n = table.len();
    for i in 0..n
        invariant
            n == table@.len(),
            owned_pairs_view(rules@) == owned_pairs_view(old(rules)@) + with_target_prefix(
                pairs_view(table@.subrange(0, i as int)),
                prefix@,
            ),
    {
        let ghost before = rules@;
        let (pattern, target) = table[i];
        let full_target = String::from_str(prefix).concat(target);
        rules.push((String::from_str(pattern), full_target));
        assert(table@.subrange(0, i + 1) == table@.subrange(0, i as int).push(table@[i as int]));
        assert(owned_pairs_view(rules@) =~= owned_pairs_view(before).push((pattern@, prefix@ + target@)));
        assert(with_target_prefix(pairs_view(table@.subrange(0, i + 1)), prefix@) =~= with_target_prefix(
            pairs_view(table@.subrange(0, i as int)),
            prefix@,
        ).push((pattern@, prefix@ + target@)));
    }
    assert(table@.subrange(0, n as int) == table@);
}

/// The rule list for a full Stable Diffusion checkpoint (see `spec_sd_rules`).
pub fn key_remap_rules_sd() -> (rules: Vec<(String, String)>)
    ensures
        owned_pairs_view(rules@) == spec_sd_rules(),
{
    let mut rules: Vec<(String, String)> = Vec::new();
    push_prefixed(&mut rules, key_remap_rules_clip(), "clip.");
    push_prefixed(&mut rules, key_remap_rules_autoencoder(), "autoencoder.");
    push_prefixed(&mut rules, key_remap_rules_unet(), "");
    rules.push((String::from_str("alphas_cumprod"), String::from_str("alpha_cumulative_products")));
    proof {
        reveal_strlit("");
        assert(with_target_prefix(spec_unet_rules(), ""@) == spec_unet_rules());
    }
    rules
}

// ---------------------------------------------------------------------------
// The decoder's layout: the checkpoint numbers its up-blocks from the lowest
// resolution up, the model numbers its blocks the other way round, and the
// checkpoint's resnets count from 0 where the model's count from 1.
// ---------------------------------------------------------------------------

/// The checkpoint pattern of resnet `j` of decoder up-block `k`.
pub open spec fn decoder_block_pattern(k: nat, j: nat) -> Seq<char> {
    r"first_stage_model\.decoder\.up\."@ + seq![digit_char(k)] + r"\.block\."@ + seq![digit_char(j)]
        + r"\.(.*)"@
}

/// The model name of that resnet: block `3 - k`, resnet `j + 1`.
pub open spec fn decoder_block_target(k: nat, j: nat) -> Seq<char> {
    "decoder.blocks."@ + seq![digit_char((3 - k) as nat)] + ".res"@ + seq![digit_char(j + 1)] + ".$1"@
}

/// The checkpoint pattern of the upsampling convolution of decoder up-block `k`.
pub open spec fn decoder_upsample_pattern(k: nat) -> Seq<char> {
    r"first_stage_model\.decoder\.up\."@ + seq![digit_char(k)] + r"\.upsample\.conv\.(.*)"@
}

/// The model name of that convolution: the upsampler of block `3 - k`.
pub open spec fn decoder_upsample_target(k: nat) -> Seq<char> {
    "decoder.blocks."@ + seq![digit_char((3 - k) as nat)] + ".upsampler.$1"@
}


/// Where the rule for resnet `j` of decoder up-block `k` stands in the table.
proof fn decoder_block_rule_index(k: nat, j: nat) -> (i: int)
    requires
        k < 4,
        j < 3,
    ensures
        0 <= i < spec_autoencoder_rules().len(),
        spec_autoencoder_rules()[i] == (decoder_block_pattern(k, j), decoder_block_target(k, j)),
{
    reveal_strlit(r"first_stage_model\.decoder\.up\.");
    reveal_strlit(r"\.block\.");
    reveal_strlit(r"\.(.*)");
    reveal_strlit("decoder.blocks.");
    reveal_strlit(".res");
    reveal_strlit(".$1");
    reveal_strlit(r"\.upsample\.conv\.(.*)");
    reveal_strlit(".upsampler.$1");
    if k == 0 && j == 0 {
        reveal_strlit(r"first_stage_model\.decoder\.up\.0\.block\.0\.(.*)");
        reveal_strlit("decoder.blocks.3.res1.$1");
        assert(spec_autoencoder_rules()[4] == (r"first_stage_model\.decoder\.up\.0\.block\.0\.(.*)"@, "decoder.blocks.3.res1.$1"@));
        assert(decoder_block_pattern(0, 0) =~= r"first_stage_model\.decoder\.up\.0\.block\.0\.(.*)"@);
        assert(decoder_block_target(0, 0) =~= "decoder.blocks.3.res1.$1"@);
        4
    } else if k == 0 && j == 1 {
        reveal_strlit(r"first_stage_model\.decoder\.up\.0\.block\.1\.(.*)");
        reveal_strlit("decoder.blocks.3.res2.$1");
        assert(spec_autoencoder_rules()[5] == (r"first_stage_model\.decoder\.up\.0\.block\.1\.(.*)"@, "decoder.blocks.3.res2.$1"@));
        assert(decoder_block_pattern(0, 1) =~= r"first_stage_model\.decoder\.up\.0\.block\.1\.(.*)"@);
        assert(decoder_block_target(0, 1) =~= "decoder.blocks.3.res2.$1"@);
        5
    } else if k == 0 && j == 2 {
        reveal_strlit(r"first_stage_model\.decoder\.up\.0\.block\.2\.(.*)");
        reveal_strlit("decoder.blocks.3.res3.$1");
        assert(spec_autoencoder_rules()[6] == (r"first_stage_model\.decoder\.up\.0\.block\.2\.(.*)"@, "decoder.blocks.3.res3.$1"@));
        assert(decoder_block_pattern(0, 2) =~= r"first_stage_model\.decoder\.up\.0\.block\.2\.(.*)"@);
        assert(decoder_block_target(0, 2) =~= "decoder.blocks.3.res3.$1"@);
        6
    } else if k == 1 && j == 0 {
        reveal_strlit(r"first_stage_model\.decoder\.up\.1\.block\.0\.(.*)");
        reveal_strlit("decoder.blocks.2.res1.$1");
        assert(spec_autoencoder_rules()[7] == (r"first_stage_model\.decoder\.up\.1\.block\.0\.(.*)"@, "decoder.blocks.2.res1.$1"@));
        assert(decoder_block_pattern(1, 0) =~= r"first_stage_model\.decoder\.up\.1\.block\.0\.(.*)"@);
        assert(decoder_block_target(1, 0) =~= "decoder.blocks.2.res1.$1"@);
        7
    } else if k == 1 && j == 1 {
        reveal_strlit(r"first_stage_model\.decoder\.up\.1\.block\.1\.(.*)");
        reveal_strlit("decoder.blocks.2.res2.$1");
        assert(spec_autoencoder_rules()[8] == (r"first_stage_model\.decoder\.up\.1\.block\.1\.(.*)"@, "decoder.blocks.2.res2.$1"@));
        assert(decoder_block_pattern(1, 1) =~= r"first_stage_model\.decoder\.up\.1\.block\.1\.(.*)"@);
        assert(decoder_block_target(1, 1) =~= "decoder.blocks.2.res2.$1"@);
        8
    } else if k == 1 && j == 2 {
        reveal_strlit(r"first_stage_model\.decoder\.up\.1\.block\.2\.(.*)");
        reveal_strlit("decoder.blocks.2.res3.$1");
        assert(spec_autoencoder_rules()[9] == (r"first_stage_model\.decoder\.up\.1\.block\.2\.(.*)"@, "decoder.blocks.2.res3.$1"@));
        assert(decoder_block_pattern(1, 2) =~= r"first_stage_model\.decoder\.up\.1\.block\.2\.(.*)"@);
        assert(decoder_block_target(1, 2) =~= "decoder.blocks.2.res3.$1"@);
        9
    } else if k == 2 && j == 0 {
        reveal_strlit(r"first_stage_model\.decoder\.up\.2\.block\.0\.(.*)");
        reveal_strlit("decoder.blocks.1.res1.$1");
        assert(spec_autoencoder_rules()[11] == (r"first_stage_model\.decoder\.up\.2\.block\.0\.(.*)"@, "decoder.blocks.1.res1.$1"@));
        assert(decoder_block_pattern(2, 0) =~= r"first_stage_model\.decoder\.up\.2\.block\.0\.(.*)"@);
        assert(decoder_block_target(2, 0) =~= "decoder.blocks.1.res1.$1"@);
        11
    } else if k == 2 && j == 1 {
        reveal_strlit(r"first_stage_model\.decoder\.up\.2\.block\.1\.(.*)");
        reveal_strlit("decoder.blocks.1.res2.$1");
        assert(spec_autoencoder_rules()[12] == (r"first_stage_model\.decoder\.up\.2\.block\.1\.(.*)"@, "decoder.blocks.1.res2.$1"@));
        assert(decoder_block_pattern(2, 1) =~= r"first_stage_model\.decoder\.up\.2\.block\.1\.(.*)"@);
        assert(decoder_block_target(2, 1) =~= "decoder.blocks.1.res2.$1"@);
        12
    } else if k == 2 && j == 2 {
        reveal_strlit(r"first_stage_model\.decoder\.up\.2\.block\.2\.(.*)");
        reveal_strlit("decoder.blocks.1.res3.$1");
        assert(spec_autoencoder_rules()[13] == (r"first_stage_model\.decoder\.up\.2\.block\.2\.(.*)"@, "decoder.blocks.1.res3.$1"@));
        assert(decoder_block_pattern(2, 2) =~= r"first_stage_model\.decoder\.up\.2\.block\.2\.(.*)"@);
        assert(decoder_block_target(2, 2) =~= "decoder.blocks.1.res3.$1"@);
        13
    } else if k == 3 && j == 0 {
        reveal_strlit(r"first_stage_model\.decoder\.up\.3\.block\.0\.(.*)");
        reveal_strlit("decoder.blocks.0.res1.$1");
        assert(spec_autoencoder_rules()[15] == (r"first_stage_model\.decoder\.up\.3\.block\.0\.(.*)"@, "decoder.blocks.0.res1.$1"@));
        assert(decoder_block_pattern(3, 0) =~= r"first_stage_model\.decoder\.up\.3\.block\.0\.(.*)"@);
        assert(decoder_block_target(3, 0) =~= "decoder.blocks.0.res1.$1"@);
        15
    } else if k == 3 && j == 1 {
        reveal_strlit(r"first_stage_model\.decoder\.up\.3\.block\.1\.(.*)");
        reveal_strlit("decoder.blocks.0.res2.$1");
        assert(spec_autoencoder_rules()[16] == (r"first_stage_model\.decoder\.up\.3\.block\.1\.(.*)"@, "decoder.blocks.0.res2.$1"@));
        assert(decoder_block_pattern(3, 1) =~= r"first_stage_model\.decoder\.up\.3\.block\.1\.(.*)"@);
        assert(decoder_block_target(3, 1) =~= "decoder.blocks.0.res2.$1"@);
        16
    } else if k == 3 && j == 2 {
        reveal_strlit(r"first_stage_model\.decoder\.up\.3\.block\.2\.(.*)");
        reveal_strlit("decoder.blocks.0.res3.$1");
        assert(spec_autoencoder_rules()[17] == (r"first_stage_model\.decoder\.up\.3\.block\.2\.(.*)"@, "decoder.blocks.0.res3.$1"@));
        assert(decoder_block_pattern(3, 2) =~= r"first_stage_model\.decoder\.up\.3\.block\.2\.(.*)"@);
        assert(decoder_block_target(3, 2) =~= "decoder.blocks.0.res3.$1"@);
        17
    } else {
        0
    }
}

/// Where the rule for the upsampler of decoder up-block `k` stands in the table.
proof fn decoder_upsample_rule_index(k: nat) -> (i: int)
    requires
        1 <= k < 4,
    ensures
        0 <= i < spec_autoencoder_rules().len(),
        spec_autoencoder_rules()[i] == (decoder_upsample_pattern(k), decoder_upsample_target(k)),
{
    reveal_strlit(r"first_stage_model\.decoder\.up\.");
    reveal_strlit(r"\.block\.");
    reveal_strlit(r"\.(.*)");
    reveal_strlit("decoder.blocks.");
    reveal_strlit(".res");
    reveal_strlit(".$1");
    reveal_strlit(r"\.upsample\.conv\.(.*)");
    reveal_strlit(".upsampler.$1");
    if k == 1 {
        reveal_strlit(r"first_stage_model\.decoder\.up\.1\.upsample\.conv\.(.*)");
        reveal_strlit("decoder.blocks.2.upsampler.$1");
        assert(spec_autoencoder_rules()[10] == (r"first_stage_model\.decoder\.up\.1\.upsample\.conv\.(.*)"@, "decoder.blocks.2.upsampler.$1"@));
        assert(decoder_upsample_pattern(1) =~= r"first_stage_model\.decoder\.up\.1\.upsample\.conv\.(.*)"@);
        assert(decoder_upsample_target(1) =~= "decoder.blocks.2.upsampler.$1"@);
        10
    } else if k == 2 {
        reveal_strlit(r"first_stage_model\.decoder\.up\.2\.upsample\.conv\.(.*)");
        reveal_strlit("decoder.blocks.1.upsampler.$1");
        assert(spec_autoencoder_rules()[14] == (r"first_stage_model\.decoder\.up\.2\.upsample\.conv\.(.*)"@, "decoder.blocks.1.upsampler.$1"@));
        assert(decoder_upsample_pattern(2) =~= r"first_stage_model\.decoder\.up\.2\.upsample\.conv\.(.*)"@);
        assert(decoder_upsample_target(2) =~= "decoder.blocks.1.upsampler.$1"@);
        14
    } else if k == 3 {
        reveal_strlit(r"first_stage_model\.decoder\.up\.3\.upsample\.conv\.(.*)");
        reveal_strlit("decoder.blocks.0.upsampler.$1");
        assert(spec_autoencoder_rules()[18] == (r"first_stage_model\.decoder\.up\.3\.upsample\.conv\.(.*)"@, "decoder.blocks.0.upsampler.$1"@));
        assert(decoder_upsample_pattern(3) =~= r"first_stage_model\.decoder\.up\.3\.upsample\.conv\.(.*)"@);
        assert(decoder_upsample_target(3) =~= "decoder.blocks.0.upsampler.$1"@);
        18
    } else {
        0
    }
}

/// Every resnet of every decoder up-block of the checkpoint has a rule that
/// sends it to the model's block in reverse order with its resnet counted
/// from 1 (`up.k.block.j` to `blocks.(3-k).res(j+1)`), and the full
/// checkpoint rule list holds it with its target under `autoencoder.`.
pub proof fn lemma_decoder_blocks_reversed(k: nat, j: nat)
    requires
        k < 4,
        j < 3,
    ensures
        exists|i: int|
            0 <= i < spec_autoencoder_rules().len() && #[trigger] spec_autoencoder_rules()[i] == (
                decoder_block_pattern(k, j),
                decoder_block_target(k, j),
            ),
        exists|i: int|
            0 <= i < spec_sd_rules().len() && #[trigger] spec_sd_rules()[i] == (
                decoder_block_pattern(k, j),
                "autoencoder."@ + decoder_block_target(k, j),
            ),
{
    let i = decoder_block_rule_index(k, j);
    let clip_len = spec_clip_rules().len() as int;
    assert(spec_sd_rules()[clip_len + i] == (decoder_block_pattern(k, j), "autoencoder."@
        + decoder_block_target(k, j)));
}

/// The upsampler of every decoder up-block but the first goes to the upsampler
/// of the model's block in reverse order (`up.k.upsample.conv` to
/// `blocks.(3-k).upsampler`), also in the full checkpoint rule list.
pub proof fn lemma_decoder_upsamplers_reversed(k: nat)
    requires
        1 <= k < 4,
    ensures
        exists|i: int|
            0 <= i < spec_autoencoder_rules().len() && #[trigger] spec_autoencoder_rules()[i] == (
                decoder_upsample_pattern(k),
                decoder_upsample_target(k),
            ),
        exists|i: int|
            0 <= i < spec_sd_rules().len() && #[trigger] spec_sd_rules()[i] == (
                decoder_upsample_pattern(k),
                "autoencoder."@ + decoder_upsample_target(k),
            ),
{
    let i = decoder_upsample_rule_index(k);
    let clip_len = spec_clip_rules().len() as int;
    assert(spec_sd_rules()[clip_len + i] == (decoder_upsample_pattern(k), "autoencoder."@
        + decoder_upsample_target(k)));
}

// ---------------------------------------------------------------------------
// The U-Net's layout: the checkpoint numbers its input and output blocks in
// one sequence, the model names them by kind and counts each kind from 1.
// ---------------------------------------------------------------------------

/// The model's name of U-Net input block `n` (1 to 11): blocks 3, 6 and 9
/// are the downsamplers `d1` to `d3`; blocks 10 and 11, at the lowest
/// resolution, are the resnets `r1` and `r2`; the others are the
/// resnet-transformer blocks `rt1` to `rt6`, counted without the downsamplers.
pub open spec fn unet_input_block_name(n: nat) -> Seq<char> {
    if n % 3 == 0 && n <= 9 {
        "d"@ + decimal(n / 3)
    } else if n >= 10 {
        "r"@ + decimal((n - 9) as nat)
    } else {
        "rt"@ + decimal((n - n / 3) as nat)
    }
}

/// The checkpoint pattern of U-Net input block `n`: the downsamplers by their
/// `op` convolution, the other blocks by their number.
pub open spec fn unet_input_pattern(n: nat) -> Seq<char> {
    if n % 3 == 0 && n <= 9 {
        r"input_blocks\."@ + decimal(n) + r"\.0.op"@
    } else {
        r"input_blocks\."@ + decimal(n) + r"\."@
    }
}

/// The model's name for what that pattern matches.
pub open spec fn unet_input_target(n: nat) -> Seq<char> {
    if n % 3 == 0 && n <= 9 {
        "input_blocks."@ + unet_input_block_name(n)
    } else {
        "input_blocks."@ + unet_input_block_name(n) + "."@
    }
}

/// The model's name of U-Net output block `n` (0 to 11): blocks 0 and 1 are
/// the resnets `r1` and `r2`, block 2 the resnet with upsampler `ru`, blocks 5
/// and 8 the resnet-transformers with upsampler `rtu1` and `rtu2`, and the
/// others the resnet-transformer blocks `rt1` to `rt7`, counted without those.
pub open spec fn unet_output_block_name(n: nat) -> Seq<char> {
    if n < 2 {
        "r"@ + decimal(n + 1)
    } else if n == 2 {
        "ru"@
    } else if n % 3 == 2 && n <= 8 {
        "rtu"@ + decimal(n / 3)
    } else {
        "rt"@ + decimal((n - 2 - (n - 3) / 3) as nat)
    }
}

/// The checkpoint pattern of U-Net output block `n`.
pub open spec fn unet_output_pattern(n: nat) -> Seq<char> {
    r"output_blocks\."@ + decimal(n) + r"\."@
}

/// The model's name for what that pattern matches.
pub open spec fn unet_output_target(n: nat) -> Seq<char> {
    "output_blocks."@ + unet_output_block_name(n) + "."@
}

/// Where the rule for U-Net input block `n` stands in the table.
proof fn unet_input_rule_index(n: nat) -> (i: int)
    requires
        1 <= n <= 11,
    ensures
        0 <= i < spec_unet_rules().len(),
        spec_unet_rules()[i] == (unet_input_pattern(n), unet_input_target(n)),
{
    reveal_with_fuel(decimal, 3);
    reveal_strlit(r"input_blocks\.");
    reveal_strlit(r"output_blocks\.");
    reveal_strlit(r"\.");
    reveal_strlit(r"\.0.op");
    reveal_strlit("input_blocks.");
    reveal_strlit("output_blocks.");
    reveal_strlit(".");
    reveal_strlit("d");
    reveal_strlit("r");
    reveal_strlit("rt");
    reveal_strlit("ru");
    reveal_strlit("rtu");
    if n == 1 {
        reveal_strlit(r"input_blocks\.1\.");
        reveal_strlit("input_blocks.rt1.");
        assert(spec_unet_rules()[8] == (r"input_blocks\.1\."@, "input_blocks.rt1."@));
        assert(unet_input_pattern(1) =~= r"input_blocks\.1\."@);
        assert(unet_input_target(1) =~= "input_blocks.rt1."@);
        8
    } else if n == 2 {
        reveal_strlit(r"input_blocks\.2\.");
        reveal_strlit("input_blocks.rt2.");
        assert(spec_unet_rules()[9] == (r"input_blocks\.2\."@, "input_blocks.rt2."@));
        assert(unet_input_pattern(2) =~= r"input_blocks\.2\."@);
        assert(unet_input_target(2) =~= "input_blocks.rt2."@);
        9
    } else if n == 3 {
        reveal_strlit(r"input_blocks\.3\.0.op");
        reveal_strlit("input_blocks.d1");
        assert(spec_unet_rules()[10] == (r"input_blocks\.3\.0.op"@, "input_blocks.d1"@));
        assert(unet_input_pattern(3) =~= r"input_blocks\.3\.0.op"@);
        assert(unet_input_target(3) =~= "input_blocks.d1"@);
        10
    } else if n == 4 {
        reveal_strlit(r"input_blocks\.4\.");
        reveal_strlit("input_blocks.rt3.");
        assert(spec_unet_rules()[11] == (r"input_blocks\.4\."@, "input_blocks.rt3."@));
        assert(unet_input_pattern(4) =~= r"input_blocks\.4\."@);
        assert(unet_input_target(4) =~= "input_blocks.rt3."@);
        11
    } else if n == 5 {
        reveal_strlit(r"input_blocks\.5\.");
        reveal_strlit("input_blocks.rt4.");
        assert(spec_unet_rules()[12] == (r"input_blocks\.5\."@, "input_blocks.rt4."@));
        assert(unet_input_pattern(5) =~= r"input_blocks\.5\."@);
        assert(unet_input_target(5) =~= "input_blocks.rt4."@);
        12
    } else if n == 6 {
        reveal_strlit(r"input_blocks\.6\.0.op");
        reveal_strlit("input_blocks.d2");
        assert(spec_unet_rules()[13] == (r"input_blocks\.6\.0.op"@, "input_blocks.d2"@));
        assert(unet_input_pattern(6) =~= r"input_blocks\.6\.0.op"@);
        assert(unet_input_target(6) =~= "input_blocks.d2"@);
        13
    } else if n == 7 {
        reveal_strlit(r"input_blocks\.7\.");
        reveal_strlit("input_blocks.rt5.");
        assert(spec_unet_rules()[14] == (r"input_blocks\.7\."@, "input_blocks.rt5."@));
        assert(unet_input_pattern(7) =~= r"input_blocks\.7\."@);
        assert(unet_input_target(7) =~= "input_blocks.rt5."@);
        14
    } else if n == 8 {
        reveal_strlit(r"input_blocks\.8\.");
        reveal_strlit("input_blocks.rt6.");
        assert(spec_unet_rules()[15] == (r"input_blocks\.8\."@, "input_blocks.rt6."@));
        assert(unet_input_pattern(8) =~= r"input_blocks\.8\."@);
        assert(unet_input_target(8) =~= "input_blocks.rt6."@);
        15
    } else if n == 9 {
        reveal_strlit(r"input_blocks\.9\.0.op");
        reveal_strlit("input_blocks.d3");
        assert(spec_unet_rules()[16] == (r"input_blocks\.9\.0.op"@, "input_blocks.d3"@));
        assert(unet_input_pattern(9) =~= r"input_blocks\.9\.0.op"@);
        assert(unet_input_target(9) =~= "input_blocks.d3"@);
        16
    } else if n == 10 {
        reveal_strlit(r"input_blocks\.10\.");
        reveal_strlit("input_blocks.r1.");
        assert(spec_unet_rules()[17] == (r"input_blocks\.10\."@, "input_blocks.r1."@));
        assert(unet_input_pattern(10) =~= r"input_blocks\.10\."@);
        assert(unet_input_target(10) =~= "input_blocks.r1."@);
        17
    } else if n == 11 {
        reveal_strlit(r"input_blocks\.11\.");
        reveal_strlit("input_blocks.r2.");
        assert(spec_unet_rules()[18] == (r"input_blocks\.11\."@, "input_blocks.r2."@));
        assert(unet_input_pattern(11) =~= r"input_blocks\.11\."@);
        assert(unet_input_target(11) =~= "input_blocks.r2."@);
        18
    } else {
        0
    }
}

/// Where the rule for U-Net output block `n` stands in the table.
proof fn unet_output_rule_index(n: nat) -> (i: int)
    requires
        n <= 11,
    ensures
        0 <= i < spec_unet_rules().len(),
        spec_unet_rules()[i] == (unet_output_pattern(n), unet_output_target(n)),
{
    reveal_with_fuel(decimal, 3);
    reveal_strlit(r"input_blocks\.");
    reveal_strlit(r"output_blocks\.");
    reveal_strlit(r"\.");
    reveal_strlit(r"\.0.op");
    reveal_strlit("input_blocks.");
    reveal_strlit("output_blocks.");
    reveal_strlit(".");
    reveal_strlit("d");
    reveal_strlit("r");
    reveal_strlit("rt");
    reveal_strlit("ru");
    reveal_strlit("rtu");
    if n == 0 {
        reveal_strlit(r"output_blocks\.0\.");
        reveal_strlit("output_blocks.r1.");
        assert(spec_unet_rules()[19] == (r"output_blocks\.0\."@, "output_blocks.r1."@));
        assert(unet_output_pattern(0) =~= r"output_blocks\.0\."@);
        assert(unet_output_target(0) =~= "output_blocks.r1."@);
        19
    } else if n == 1 {
        reveal_strlit(r"output_blocks\.1\.");
        reveal_strlit("output_blocks.r2.");
        assert(spec_unet_rules()[20] == (r"output_blocks\.1\."@, "output_blocks.r2."@));
        assert(unet_output_pattern(1) =~= r"output_blocks\.1\."@);
        assert(unet_output_target(1) =~= "output_blocks.r2."@);
        20
    } else if n == 2 {
        reveal_strlit(r"output_blocks\.2\.");
        reveal_strlit("output_blocks.ru.");
        assert(spec_unet_rules()[21] == (r"output_blocks\.2\."@, "output_blocks.ru."@));
        assert(unet_output_pattern(2) =~= r"output_blocks\.2\."@);
        assert(unet_output_target(2) =~= "output_blocks.ru."@);
        21
    } else if n == 3 {
        reveal_strlit(r"output_blocks\.3\.");
        reveal_strlit("output_blocks.rt1.");
        assert(spec_unet_rules()[22] == (r"output_blocks\.3\."@, "output_blocks.rt1."@));
        assert(unet_output_pattern(3) =~= r"output_blocks\.3\."@);
        assert(unet_output_target(3) =~= "output_blocks.rt1."@);
        22
    } else if n == 4 {
        reveal_strlit(r"output_blocks\.4\.");
        reveal_strlit("output_blocks.rt2.");
        assert(spec_unet_rules()[23] == (r"output_blocks\.4\."@, "output_blocks.rt2."@));
        assert(unet_output_pattern(4) =~= r"output_blocks\.4\."@);
        assert(unet_output_target(4) =~= "output_blocks.rt2."@);
        23
    } else if n == 5 {
        reveal_strlit(r"output_blocks\.5\.");
        reveal_strlit("output_blocks.rtu1.");
        assert(spec_unet_rules()[24] == (r"output_blocks\.5\."@, "output_blocks.rtu1."@));
        assert(unet_output_pattern(5) =~= r"output_blocks\.5\."@);
        assert(unet_output_target(5) =~= "output_blocks.rtu1."@);
        24
    } else if n == 6 {
        reveal_strlit(r"output_blocks\.6\.");
        reveal_strlit("output_blocks.rt3.");
        assert(spec_unet_rules()[25] == (r"output_blocks\.6\."@, "output_blocks.rt3."@));
        assert(unet_output_pattern(6) =~= r"output_blocks\.6\."@);
        assert(unet_output_target(6) =~= "output_blocks.rt3."@);
        25
    } else if n == 7 {
        reveal_strlit(r"output_blocks\.7\.");
        reveal_strlit("output_blocks.rt4.");
        assert(spec_unet_rules()[26] == (r"output_blocks\.7\."@, "output_blocks.rt4."@));
        assert(unet_output_pattern(7) =~= r"output_blocks\.7\."@);
        assert(unet_output_target(7) =~= "output_blocks.rt4."@);
        26
    } else if n == 8 {
        reveal_strlit(r"output_blocks\.8\.");
        reveal_strlit("output_blocks.rtu2.");
        assert(spec_unet_rules()[27] == (r"output_blocks\.8\."@, "output_blocks.rtu2."@));
        assert(unet_output_pattern(8) =~= r"output_blocks\.8\."@);
        assert(unet_output_target(8) =~= "output_blocks.rtu2."@);
        27
    } else if n == 9 {
        reveal_strlit(r"output_blocks\.9\.");
        reveal_strlit("output_blocks.rt5.");
        assert(spec_unet_rules()[28] == (r"output_blocks\.9\."@, "output_blocks.rt5."@));
        assert(unet_output_pattern(9) =~= r"output_blocks\.9\."@);
        assert(unet_output_target(9) =~= "output_blocks.rt5."@);
        28
    } else if n == 10 {
        reveal_strlit(r"output_blocks\.10\.");
        reveal_strlit("output_blocks.rt6.");
        assert(spec_unet_rules()[29] == (r"output_blocks\.10\."@, "output_blocks.rt6."@));
        assert(unet_output_pattern(10) =~= r"output_blocks\.10\."@);
        assert(unet_output_target(10) =~= "output_blocks.rt6."@);
        29
    } else if n == 11 {
        reveal_strlit(r"output_blocks\.11\.");
        reveal_strlit("output_blocks.rt7.");
        assert(spec_unet_rules()[30] == (r"output_blocks\.11\."@, "output_blocks.rt7."@));
        assert(unet_output_pattern(11) =~= r"output_blocks\.11\."@);
        assert(unet_output_target(11) =~= "output_blocks.rt7."@);
        30
    } else {
        0
    }
}

/// Every U-Net input block of the checkpoint but the first convolution has a
/// rule that gives it its model name (see `unet_input_block_name`), and the
/// full checkpoint rule list holds that rule unchanged.
pub proof fn lemma_unet_input_blocks_named(n: nat)
    requires
        1 <= n <= 11,
    ensures
        exists|i: int|
            0 <= i < spec_unet_rules().len() && #[trigger] spec_unet_rules()[i] == (
                unet_input_pattern(n),
                unet_input_target(n),
            ),
        exists|i: int|
            0 <= i < spec_sd_rules().len() && #[trigger] spec_sd_rules()[i] == (
                unet_input_pattern(n),
                unet_input_target(n),
            ),
{
    let i = unet_input_rule_index(n);
    let offset = spec_clip_rules().len() + spec_autoencoder_rules().len();
    assert(spec_sd_rules()[offset + i] == (unet_input_pattern(n), unet_input_target(n)));
}

/// Every U-Net output block of the checkpoint has a rule that gives it its
/// model name (see `unet_output_block_name`), and the full checkpoint rule
/// list holds that rule unchanged.
pub proof fn lemma_unet_output_blocks_named(n: nat)
    requires
        n <= 11,
    ensures
        exists|i: int|
            0 <= i < spec_unet_rules().len() && #[trigger] spec_unet_rules()[i] == (
                unet_output_pattern(n),
                unet_output_target(n),
            ),
        exists|i: int|
            0 <= i < spec_sd_rules().len() && #[trigger] spec_sd_rules()[i] == (
                unet_output_pattern(n),
                unet_output_target(n),
            ),
{
    let i = unet_output_rule_index(n);
    let offset = spec_clip_rules().len() + spec_autoencoder_rules().len();
    assert(spec_sd_rules()[offset + i] == (unet_output_pattern(n), unet_output_target(n)));
}

// ---------------------------------------------------------------------------
// Each table speaks only of its own part of the checkpoint, and the CLIP
// rules carry an encoder layer's number over to the model's block.
// ---------------------------------------------------------------------------

/// Whether `s` begins with `prefix`.
pub open spec fn has_prefix(s: Seq<char>, prefix: Seq<char>) -> bool {
    prefix.len() <= s.len() && s.subrange(0, prefix.len() as int) == prefix
}

/// Every CLIP rule matches names of the checkpoint's CLIP text model only,
/// and every rule for an encoder layer sends layer `N` to the model's block
/// `N` (its target starts with `blocks.$1.`, the captured layer number).
pub proof fn lemma_clip_rules_keep_layer_numbers()
    ensures
        forall|i: int|
            0 <= i < spec_clip_rules().len() ==> has_prefix(
                #[trigger] spec_clip_rules()[i].0,
                r"cond_stage_model\.transformer\.text_model\."@,
            ),
        forall|i: int|
            0 <= i < spec_clip_rules().len() && has_prefix(
                #[trigger] spec_clip_rules()[i].0,
                r"cond_stage_model\.transformer\.text_model\.encoder\.layers\.(\d+)\."@,
            ) ==> has_prefix(spec_clip_rules()[i].1, "blocks.$1."@),
{
    reveal_strlit(r"cond_stage_model\.transformer\.text_model\.");
    reveal_strlit(r"cond_stage_model\.transformer\.text_model\.encoder\.layers\.(\d+)\.");
    reveal_strlit("blocks.$1.");
    assert forall|i: int| 0 <= i < spec_clip_rules().len() implies {
        &&& has_prefix(#[trigger] spec_clip_rules()[i].0, r"cond_stage_model\.transformer\.text_model\."@)
        &&& has_prefix(spec_clip_rules()[i].0, r"cond_stage_model\.transformer\.text_model\.encoder\.layers\.(\d+)\."@)
            ==> has_prefix(spec_clip_rules()[i].1, "blocks.$1."@)
    } by {
        if i == 0 {
            reveal_strlit(r"cond_stage_model\.transformer\.text_model\.final_layer_norm\.bias");
            reveal_strlit("layer_norm.beta");
            assert(spec_clip_rules()[0] == (r"cond_stage_model\.transformer\.text_model\.final_layer_norm\.bias"@, "layer_norm.beta"@));
            assert(r"cond_stage_model\.transformer\.text_model\.final_layer_norm\.bias"@.subrange(0, 43) =~= r"cond_stage_model\.transformer\.text_model\."@);
            assert(has_prefix(r"cond_stage_model\.transformer\.text_model\.final_layer_norm\.bias"@, r"cond_stage_model\.transformer\.text_model\."@));
            assert(r"cond_stage_model\.transformer\.text_model\.final_layer_norm\.bias"@[43] != r"cond_stage_model\.transformer\.text_model\.encoder\.layers\.(\d+)\."@[43]);
            assert(!has_prefix(r"cond_stage_model\.transformer\.text_model\.final_layer_norm\.bias"@, r"cond_stage_model\.transformer\.text_model\.encoder\.layers\.(\d+)\."@)) by {
                if has_prefix(r"cond_stage_model\.transformer\.text_model\.final_layer_norm\.bias"@, r"cond_stage_model\.transformer\.text_model\.encoder\.layers\.(\d+)\."@) {
                    assert(r"cond_stage_model\.transformer\.text_model\.final_layer_norm\.bias"@.subrange(0, 67)[43] == r"cond_stage_model\.transformer\.text_model\.final_layer_norm\.bias"@[43]);
                }
            }
        } else if i == 1 {
            reveal_strlit(r"cond_stage_model\.transformer\.text_model\.final_layer_norm\.weight");
            reveal_strlit("layer_norm.gamma");
            assert(spec_clip_rules()[1] == (r"cond_stage_model\.transformer\.text_model\.final_layer_norm\.weight"@, "layer_norm.gamma"@));
            assert(r"cond_stage_model\.transformer\.text_model\.final_layer_norm\.weight"@.subrange(0, 43) =~= r"cond_stage_model\.transformer\.text_model\."@);
            assert(has_prefix(r"cond_stage_model\.transformer\.text_model\.final_layer_norm\.weight"@, r"cond_stage_model\.transformer\.text_model\."@));
            assert(r"cond_stage_model\.transformer\.text_model\.final_layer_norm\.weight"@[43] != r"cond_stage_model\.transformer\.text_model\.encoder\.layers\.(\d+)\."@[43]);
            assert(!has_prefix(r"cond_stage_model\.transformer\.text_model\.final_layer_norm\.weight"@, r"cond_stage_model\.transformer\.text_model\.encoder\.layers\.(\d+)\."@)) by {
                if has_prefix(r"cond_stage_model\.transformer\.text_model\.final_layer_norm\.weight"@, r"cond_stage_model\.transformer\.text_model\.encoder\.layers\.(\d+)\."@) {
                    assert(r"cond_stage_model\.transformer\.text_model\.final_layer_norm\.weight"@.subrange(0, 67)[43] == r"cond_stage_model\.transformer\.text_model\.final_layer_norm\.weight"@[43]);
                }
            }
        } else if i == 2 {
            reveal_strlit(r"cond_stage_model\.transformer\.text_model\.embeddings\.position_embedding\.weight");
            reveal_strlit("position_embedding");
            assert(spec_clip_rules()[2] == (r"cond_stage_model\.transformer\.text_model\.embeddings\.position_embedding\.weight"@, "position_embedding"@));
            assert(r"cond_stage_model\.transformer\.text_model\.embeddings\.position_embedding\.weight"@.subrange(0, 43) =~= r"cond_stage_model\.transformer\.text_model\."@);
            assert(has_prefix(r"cond_stage_model\.transformer\.text_model\.embeddings\.position_embedding\.weight"@, r"cond_stage_model\.transformer\.text_model\."@));
            assert(r"cond_stage_model\.transformer\.text_model\.embeddings\.position_embedding\.weight"@[44] != r"cond_stage_model\.transformer\.text_model\.encoder\.layers\.(\d+)\."@[44]);
            assert(!has_prefix(r"cond_stage_model\.transformer\.text_model\.embeddings\.position_embedding\.weight"@, r"cond_stage_model\.transformer\.text_model\.encoder\.layers\.(\d+)\."@)) by {
                if has_prefix(r"cond_stage_model\.transformer\.text_model\.embeddings\.position_embedding\.weight"@, r"cond_stage_model\.transformer\.text_model\.encoder\.layers\.(\d+)\."@) {
                    assert(r"cond_stage_model\.transformer\.text_model\.embeddings\.position_embedding\.weight"@.subrange(0, 67)[44] == r"cond_stage_model\.transformer\.text_model\.embeddings\.position_embedding\.weight"@[44]);
                }
            }
        } else if i == 3 {
            reveal_strlit(r"cond_stage_model\.transformer\.text_model\.embeddings\.token_embedding");
            reveal_strlit("token_embedding");
            assert(spec_clip_rules()[3] == (r"cond_stage_model\.transformer\.text_model\.embeddings\.token_embedding"@, "token_embedding"@));
            assert(r"cond_stage_model\.transformer\.text_model\.embeddings\.token_embedding"@.subrange(0, 43) =~= r"cond_stage_model\.transformer\.text_model\."@);
            assert(has_prefix(r"cond_stage_model\.transformer\.text_model\.embeddings\.token_embedding"@, r"cond_stage_model\.transformer\.text_model\."@));
            assert(r"cond_stage_model\.transformer\.text_model\.embeddings\.token_embedding"@[44] != r"cond_stage_model\.transformer\.text_model\.encoder\.layers\.(\d+)\."@[44]);
            assert(!has_prefix(r"cond_stage_model\.transformer\.text_model\.embeddings\.token_embedding"@, r"cond_stage_model\.transformer\.text_model\.encoder\.layers\.(\d+)\."@)) by {
                if has_prefix(r"cond_stage_model\.transformer\.text_model\.embeddings\.token_embedding"@, r"cond_stage_model\.transformer\.text_model\.encoder\.layers\.(\d+)\."@) {
                    assert(r"cond_stage_model\.transformer\.text_model\.embeddings\.token_embedding"@.subrange(0, 67)[44] == r"cond_stage_model\.transformer\.text_model\.embeddings\.token_embedding"@[44]);
                }
            }
        } else if i == 4 {
            reveal_strlit(r"cond_stage_model\.transformer\.text_model\.encoder\.layers\.(\d+)\.self_attn\.k_proj");
            reveal_strlit("blocks.$1.attn.key");
            assert(spec_clip_rules()[4] == (r"cond_stage_model\.transformer\.text_model\.encoder\.layers\.(\d+)\.self_attn\.k_proj"@, "blocks.$1.attn.key"@));
            assert(r"cond_stage_model\.transformer\.text_model\.encoder\.layers\.(\d+)\.self_attn\.k_proj"@.subrange(0, 43) =~= r"cond_stage_model\.transformer\.text_model\."@);
            assert(has_prefix(r"cond_stage_model\.transformer\.text_model\.encoder\.layers\.(\d+)\.self_attn\.k_proj"@, r"cond_stage_model\.transformer\.text_model\."@));
            assert(r"cond_stage_model\.transformer\.text_model\.encoder\.layers\.(\d+)\.self_attn\.k_proj"@.subrange(0, 67) =~= r"cond_stage_model\.transformer\.text_model\.encoder\.layers\.(\d+)\."@);
            assert(has_prefix(r"cond_stage_model\.transformer\.text_model\.encoder\.layers\.(\d+)\.self_attn\.k_proj"@, r"cond_stage_model\.transformer\.text_model\.encoder\.layers\.(\d+)\."@));
            assert("blocks.$1.attn.key"@.subrange(0, 10) =~= "blocks.$1."@);
            assert(has_prefix("blocks.$1.attn.key"@, "blocks.$1."@));
        } else if i == 5 {
            reveal_strlit(r"cond_stage_model\.transformer\.text_model\.encoder\.layers\.(\d+)\.self_attn\.out_proj");
            reveal_strlit("blocks.$1.attn.out");
            assert(spec_clip_rules()[5] == (r"cond_stage_model\.transformer\.text_model\.encoder\.layers\.(\d+)\.self_attn\.out_proj"@, "blocks.$1.attn.out"@));
            assert(r"cond_stage_model\.transformer\.text_model\.encoder\.layers\.(\d+)\.self_attn\.out_proj"@.subrange(0, 43) =~= r"cond_stage_model\.transformer\.text_model\."@);
            assert(has_prefix(r"cond_stage_model\.transformer\.text_model\.encoder\.layers\.(\d+)\.self_attn\.out_proj"@, r"cond_stage_model\.transformer\.text_model\."@));
            assert(r"cond_stage_model\.transformer\.text_model\.encoder\.layers\.(\d+)\.self_attn\.out_proj"@.subrange(0, 67) =~= r"cond_stage_model\.transformer\.text_model\.encoder\.layers\.(\d+)\."@);
            assert(has_prefix(r"cond_stage_model\.transformer\.text_model\.encoder\.layers\.(\d+)\.self_attn\.out_proj"@, r"cond_stage_model\.transformer\.text_model\.encoder\.layers\.(\d+)\."@));
            assert("blocks.$1.attn.out"@.subrange(0, 10) =~= "blocks.$1."@);
            assert(has_prefix("blocks.$1.attn.out"@, "blocks.$1."@));
        } else if i == 6 {
            reveal_strlit(r"cond_stage_model\.transformer\.text_model\.encoder\.layers\.(\d+)\.self_attn\.q_proj");
            reveal_strlit("blocks.$1.attn.query");
            assert(spec_clip_rules()[6] == (r"cond_stage_model\.transformer\.text_model\.encoder\.layers\.(\d+)\.self_attn\.q_proj"@, "blocks.$1.attn.query"@));
            assert(r"cond_stage_model\.transformer\.text_model\.encoder\.layers\.(\d+)\.self_attn\.q_proj"@.subrange(0, 43) =~= r"cond_stage_model\.transformer\.text_model\."@);
            assert(has_prefix(r"cond_stage_model\.transformer\.text_model\.encoder\.layers\.(\d+)\.self_attn\.q_proj"@, r"cond_stage_model\.transformer\.text_model\."@));
            assert(r"cond_stage_model\.transformer\.text_model\.encoder\.layers\.(\d+)\.self_attn\.q_proj"@.subrange(0, 67) =~= r"cond_stage_model\.transformer\.text_model\.encoder\.layers\.(\d+)\."@);
            assert(has_prefix(r"cond_stage_model\.transformer\.text_model\.encoder\.layers\.(\d+)\.self_attn\.q_proj"@, r"cond_stage_model\.transformer\.text_model\.encoder\.layers\.(\d+)\."@));
            assert("blocks.$1.attn.query"@.subrange(0, 10) =~= "blocks.$1."@);
            assert(has_prefix("blocks.$1.attn.query"@, "blocks.$1."@));
        } else if i == 7 {
            reveal_strlit(r"cond_stage_model\.transformer\.text_model\.encoder\.layers\.(\d+)\.self_attn\.v_proj");
            reveal_strlit("blocks.$1.attn.value");
            assert(spec_clip_rules()[7] == (r"cond_stage_model\.transformer\.text_model\.encoder\.layers\.(\d+)\.self_attn\.v_proj"@, "blocks.$1.attn.value"@));
            assert(r"cond_stage_model\.transformer\.text_model\.encoder\.layers\.(\d+)\.self_attn\.v_proj"@.subrange(0, 43) =~= r"cond_stage_model\.transformer\.text_model\."@);
            assert(has_prefix(r"cond_stage_model\.transformer\.text_model\.encoder\.layers\.(\d+)\.self_attn\.v_proj"@, r"cond_stage_model\.transformer\.text_model\."@));
            assert(r"cond_stage_model\.transformer\.text_model\.encoder\.layers\.(\d+)\.self_attn\.v_proj"@.subrange(0, 67) =~= r"cond_stage_model\.transformer\.text_model\.encoder\.layers\.(\d+)\."@);
            assert(has_prefix(r"cond_stage_model\.transformer\.text_model\.encoder\.layers\.(\d+)\.self_attn\.v_proj"@, r"cond_stage_model\.transformer\.text_model\.encoder\.layers\.(\d+)\."@));
            assert("blocks.$1.attn.value"@.subrange(0, 10) =~= "blocks.$1."@);
            assert(has_prefix("blocks.$1.attn.value"@, "blocks.$1."@));
        } else if i == 8 {
            reveal_strlit(r"cond_stage_model\.transformer\.text_model\.encoder\.layers\.(\d+)\.layer_norm1\.bias");
            reveal_strlit("blocks.$1.attn_ln.beta");
            assert(spec_clip_rules()[8] == (r"cond_stage_model\.transformer\.text_model\.encoder\.layers\.(\d+)\.layer_norm1\.bias"@, "blocks.$1.attn_ln.beta"@));
            assert(r"cond_stage_model\.transformer\.text_model\.encoder\.layers\.(\d+)\.layer_norm1\.bias"@.subrange(0, 43) =~= r"cond_stage_model\.transformer\.text_model\."@);
            assert(has_prefix(r"cond_stage_model\.transformer\.text_model\.encoder\.layers\.(\d+)\.layer_norm1\.bias"@, r"cond_stage_model\.transformer\.text_model\."@));
            assert(r"cond_stage_model\.transformer\.text_model\.encoder\.layers\.(\d+)\.layer_norm1\.bias"@.subrange(0, 67) =~= r"cond_stage_model\.transformer\.text_model\.encoder\.layers\.(\d+)\."@);
            assert(has_prefix(r"cond_stage_model\.transformer\.text_model\.encoder\.layers\.(\d+)\.layer_norm1\.bias"@, r"cond_stage_model\.transformer\.text_model\.encoder\.layers\.(\d+)\."@));
            assert("blocks.$1.attn_ln.beta"@.subrange(0, 10) =~= "blocks.$1."@);
            assert(has_prefix("blocks.$1.attn_ln.beta"@, "blocks.$1."@));
        } else if i == 9 {
            reveal_strlit(r"cond_stage_model\.transformer\.text_model\.encoder\.layers\.(\d+)\.layer_norm1\.weight");
            reveal_strlit("blocks.$1.attn_ln.gamma");
            assert(spec_clip_rules()[9] == (r"cond_stage_model\.transformer\.text_model\.encoder\.layers\.(\d+)\.layer_norm1\.weight"@, "blocks.$1.attn_ln.gamma"@));
            assert(r"cond_stage_model\.transformer\.text_model\.encoder\.layers\.(\d+)\.layer_norm1\.weight"@.subrange(0, 43) =~= r"cond_stage_model\.transformer\.text_model\."@);
            assert(has_prefix(r"cond_stage_model\.transformer\.text_model\.encoder\.layers\.(\d+)\.layer_norm1\.weight"@, r"cond_stage_model\.transformer\.text_model\."@));
            assert(r"cond_stage_model\.transformer\.text_model\.encoder\.layers\.(\d+)\.layer_norm1\.weight"@.subrange(0, 67) =~= r"cond_stage_model\.transformer\.text_model\.encoder\.layers\.(\d+)\."@);
            assert(has_prefix(r"cond_stage_model\.transformer\.text_model\.encoder\.layers\.(\d+)\.layer_norm1\.weight"@, r"cond_stage_model\.transformer\.text_model\.encoder\.layers\.(\d+)\."@));
            assert("blocks.$1.attn_ln.gamma"@.subrange(0, 10) =~= "blocks.$1."@);
            assert(has_prefix("blocks.$1.attn_ln.gamma"@, "blocks.$1."@));
        } else if i == 10 {
            reveal_strlit(r"cond_stage_model\.transformer\.text_model\.encoder\.layers\.(\d+)\.mlp\.(.*)");
            reveal_strlit("blocks.$1.mlp.$2");
            assert(spec_clip_rules()[10] == (r"cond_stage_model\.transformer\.text_model\.encoder\.layers\.(\d+)\.mlp\.(.*)"@, "blocks.$1.mlp.$2"@));
            assert(r"cond_stage_model\.transformer\.text_model\.encoder\.layers\.(\d+)\.mlp\.(.*)"@.subrange(0, 43) =~= r"cond_stage_model\.transformer\.text_model\."@);
            assert(has_prefix(r"cond_stage_model\.transformer\.text_model\.encoder\.layers\.(\d+)\.mlp\.(.*)"@, r"cond_stage_model\.transformer\.text_model\."@));
            assert(r"cond_stage_model\.transformer\.text_model\.encoder\.layers\.(\d+)\.mlp\.(.*)"@.subrange(0, 67) =~= r"cond_stage_model\.transformer\.text_model\.encoder\.layers\.(\d+)\."@);
            assert(has_prefix(r"cond_stage_model\.transformer\.text_model\.encoder\.layers\.(\d+)\.mlp\.(.*)"@, r"cond_stage_model\.transformer\.text_model\.encoder\.layers\.(\d+)\."@));
            assert("blocks.$1.mlp.$2"@.subrange(0, 10) =~= "blocks.$1."@);
            assert(has_prefix("blocks.$1.mlp.$2"@, "blocks.$1."@));
        } else if i == 11 {
            reveal_strlit(r"cond_stage_model\.transformer\.text_model\.encoder\.layers\.(\d+)\.layer_norm2\.bias");
            reveal_strlit("blocks.$1.mlp_ln.beta");
            assert(spec_clip_rules()[11] == (r"cond_stage_model\.transformer\.text_model\.encoder\.layers\.(\d+)\.layer_norm2\.bias"@, "blocks.$1.mlp_ln.beta"@));
            assert(r"cond_stage_model\.transformer\.text_model\.encoder\.layers\.(\d+)\.layer_norm2\.bias"@.subrange(0, 43) =~= r"cond_stage_model\.transformer\.text_model\."@);
            assert(has_prefix(r"cond_stage_model\.transformer\.text_model\.encoder\.layers\.(\d+)\.layer_norm2\.bias"@, r"cond_stage_model\.transformer\.text_model\."@));
            assert(r"cond_stage_model\.transformer\.text_model\.encoder\.layers\.(\d+)\.layer_norm2\.bias"@.subrange(0, 67) =~= r"cond_stage_model\.transformer\.text_model\.encoder\.layers\.(\d+)\."@);
            assert(has_prefix(r"cond_stage_model\.transformer\.text_model\.encoder\.layers\.(\d+)\.layer_norm2\.bias"@, r"cond_stage_model\.transformer\.text_model\.encoder\.layers\.(\d+)\."@));
            assert("blocks.$1.mlp_ln.beta"@.subrange(0, 10) =~= "blocks.$1."@);
            assert(has_prefix("blocks.$1.mlp_ln.beta"@, "blocks.$1."@));
        } else if i == 12 {
            reveal_strlit(r"cond_stage_model\.transformer\.text_model\.encoder\.layers\.(\d+)\.layer_norm2\.weight");
            reveal_strlit("blocks.$1.mlp_ln.gamma");
            assert(spec_clip_rules()[12] == (r"cond_stage_model\.transformer\.text_model\.encoder\.layers\.(\d+)\.layer_norm2\.weight"@, "blocks.$1.mlp_ln.gamma"@));
            assert(r"cond_stage_model\.transformer\.text_model\.encoder\.layers\.(\d+)\.layer_norm2\.weight"@.subrange(0, 43) =~= r"cond_stage_model\.transformer\.text_model\."@);
            assert(has_prefix(r"cond_stage_model\.transformer\.text_model\.encoder\.layers\.(\d+)\.layer_norm2\.weight"@, r"cond_stage_model\.transformer\.text_model\."@));
            assert(r"cond_stage_model\.transformer\.text_model\.encoder\.layers\.(\d+)\.layer_norm2\.weight"@.subrange(0, 67) =~= r"cond_stage_model\.transformer\.text_model\.encoder\.layers\.(\d+)\."@);
            assert(has_prefix(r"cond_stage_model\.transformer\.text_model\.encoder\.layers\.(\d+)\.layer_norm2\.weight"@, r"cond_stage_model\.transformer\.text_model\.encoder\.layers\.(\d+)\."@));
            assert("blocks.$1.mlp_ln.gamma"@.subrange(0, 10) =~= "blocks.$1."@);
            assert(has_prefix("blocks.$1.mlp_ln.gamma"@, "blocks.$1."@));
        }
    }
}

/// Every autoencoder rule matches names of the checkpoint's first-stage
/// model only.
pub proof fn lemma_autoencoder_rules_stay_in_first_stage()
    ensures
        forall|i: int|
            0 <= i < spec_autoencoder_rules().len() ==> has_prefix(
                #[trigger] spec_autoencoder_rules()[i].0,
                r"first_stage_model\."@,
            ),
{
    reveal_strlit(r"first_stage_model\.");
    assert forall|i: int| 0 <= i < spec_autoencoder_rules().len() implies has_prefix(
        #[trigger] spec_autoencoder_rules()[i].0,
        r"first_stage_model\."@,
    ) by {
        if i == 0 {
            reveal_strlit(r"first_stage_model\.post_quant_conv");
            reveal_strlit("post_quant_conv");
            assert(spec_autoencoder_rules()[0] == (r"first_stage_model\.post_quant_conv"@, "post_quant_conv"@));
            assert(r"first_stage_model\.post_quant_conv"@.subrange(0, 19) =~= r"first_stage_model\."@);
            assert(has_prefix(r"first_stage_model\.post_quant_conv"@, r"first_stage_model\."@));
        } else if i == 1 {
            reveal_strlit(r"first_stage_model\.quant_conv");
            reveal_strlit("quant_conv");
            assert(spec_autoencoder_rules()[1] == (r"first_stage_model\.quant_conv"@, "quant_conv"@));
            assert(r"first_stage_model\.quant_conv"@.subrange(0, 19) =~= r"first_stage_model\."@);
            assert(has_prefix(r"first_stage_model\.quant_conv"@, r"first_stage_model\."@));
        } else if i == 2 {
            reveal_strlit(r"first_stage_model\.decoder\.conv_in");
            reveal_strlit("decoder.conv_in");
            assert(spec_autoencoder_rules()[2] == (r"first_stage_model\.decoder\.conv_in"@, "decoder.conv_in"@));
            assert(r"first_stage_model\.decoder\.conv_in"@.subrange(0, 19) =~= r"first_stage_model\."@);
            assert(has_prefix(r"first_stage_model\.decoder\.conv_in"@, r"first_stage_model\."@));
        } else if i == 3 {
            reveal_strlit(r"first_stage_model\.decoder\.conv_out");
            reveal_strlit("decoder.conv_out");
            assert(spec_autoencoder_rules()[3] == (r"first_stage_model\.decoder\.conv_out"@, "decoder.conv_out"@));
            assert(r"first_stage_model\.decoder\.conv_out"@.subrange(0, 19) =~= r"first_stage_model\."@);
            assert(has_prefix(r"first_stage_model\.decoder\.conv_out"@, r"first_stage_model\."@));
        } else if i == 4 {
            reveal_strlit(r"first_stage_model\.decoder\.up\.0\.block\.0\.(.*)");
            reveal_strlit("decoder.blocks.3.res1.$1");
            assert(spec_autoencoder_rules()[4] == (r"first_stage_model\.decoder\.up\.0\.block\.0\.(.*)"@, "decoder.blocks.3.res1.$1"@));
            assert(r"first_stage_model\.decoder\.up\.0\.block\.0\.(.*)"@.subrange(0, 19) =~= r"first_stage_model\."@);
            assert(has_prefix(r"first_stage_model\.decoder\.up\.0\.block\.0\.(.*)"@, r"first_stage_model\."@));
        } else if i == 5 {
            reveal_strlit(r"first_stage_model\.decoder\.up\.0\.block\.1\.(.*)");
            reveal_strlit("decoder.blocks.3.res2.$1");
            assert(spec_autoencoder_rules()[5] == (r"first_stage_model\.decoder\.up\.0\.block\.1\.(.*)"@, "decoder.blocks.3.res2.$1"@));
            assert(r"first_stage_model\.decoder\.up\.0\.block\.1\.(.*)"@.subrange(0, 19) =~= r"first_stage_model\."@);
            assert(has_prefix(r"first_stage_model\.decoder\.up\.0\.block\.1\.(.*)"@, r"first_stage_model\."@));
        } else if i == 6 {
            reveal_strlit(r"first_stage_model\.decoder\.up\.0\.block\.2\.(.*)");
            reveal_strlit("decoder.blocks.3.res3.$1");
            assert(spec_autoencoder_rules()[6] == (r"first_stage_model\.decoder\.up\.0\.block\.2\.(.*)"@, "decoder.blocks.3.res3.$1"@));
            assert(r"first_stage_model\.decoder\.up\.0\.block\.2\.(.*)"@.subrange(0, 19) =~= r"first_stage_model\."@);
            assert(has_prefix(r"first_stage_model\.decoder\.up\.0\.block\.2\.(.*)"@, r"first_stage_model\."@));
        } else if i == 7 {
            reveal_strlit(r"first_stage_model\.decoder\.up\.1\.block\.0\.(.*)");
            reveal_strlit("decoder.blocks.2.res1.$1");
            assert(spec_autoencoder_rules()[7] == (r"first_stage_model\.decoder\.up\.1\.block\.0\.(.*)"@, "decoder.blocks.2.res1.$1"@));
            assert(r"first_stage_model\.decoder\.up\.1\.block\.0\.(.*)"@.subrange(0, 19) =~= r"first_stage_model\."@);
            assert(has_prefix(r"first_stage_model\.decoder\.up\.1\.block\.0\.(.*)"@, r"first_stage_model\."@));
        } else if i == 8 {
            reveal_strlit(r"first_stage_model\.decoder\.up\.1\.block\.1\.(.*)");
            reveal_strlit("decoder.blocks.2.res2.$1");
            assert(spec_autoencoder_rules()[8] == (r"first_stage_model\.decoder\.up\.1\.block\.1\.(.*)"@, "decoder.blocks.2.res2.$1"@));
            assert(r"first_stage_model\.decoder\.up\.1\.block\.1\.(.*)"@.subrange(0, 19) =~= r"first_stage_model\."@);
            assert(has_prefix(r"first_stage_model\.decoder\.up\.1\.block\.1\.(.*)"@, r"first_stage_model\."@));
        } else if i == 9 {
            reveal_strlit(r"first_stage_model\.decoder\.up\.1\.block\.2\.(.*)");
            reveal_strlit("decoder.blocks.2.res3.$1");
            assert(spec_autoencoder_rules()[9] == (r"first_stage_model\.decoder\.up\.1\.block\.2\.(.*)"@, "decoder.blocks.2.res3.$1"@));
            assert(r"first_stage_model\.decoder\.up\.1\.block\.2\.(.*)"@.subrange(0, 19) =~= r"first_stage_model\."@);
            assert(has_prefix(r"first_stage_model\.decoder\.up\.1\.block\.2\.(.*)"@, r"first_stage_model\."@));
        } else if i == 10 {
            reveal_strlit(r"first_stage_model\.decoder\.up\.1\.upsample\.conv\.(.*)");
            reveal_strlit("decoder.blocks.2.upsampler.$1");
            assert(spec_autoencoder_rules()[10] == (r"first_stage_model\.decoder\.up\.1\.upsample\.conv\.(.*)"@, "decoder.blocks.2.upsampler.$1"@));
            assert(r"first_stage_model\.decoder\.up\.1\.upsample\.conv\.(.*)"@.subrange(0, 19) =~= r"first_stage_model\."@);
            assert(has_prefix(r"first_stage_model\.decoder\.up\.1\.upsample\.conv\.(.*)"@, r"first_stage_model\."@));
        } else if i == 11 {
            reveal_strlit(r"first_stage_model\.decoder\.up\.2\.block\.0\.(.*)");
            reveal_strlit("decoder.blocks.1.res1.$1");
            assert(spec_autoencoder_rules()[11] == (r"first_stage_model\.decoder\.up\.2\.block\.0\.(.*)"@, "decoder.blocks.1.res1.$1"@));
            assert(r"first_stage_model\.decoder\.up\.2\.block\.0\.(.*)"@.subrange(0, 19) =~= r"first_stage_model\."@);
            assert(has_prefix(r"first_stage_model\.decoder\.up\.2\.block\.0\.(.*)"@, r"first_stage_model\."@));
        } else if i == 12 {
            reveal_strlit(r"first_stage_model\.decoder\.up\.2\.block\.1\.(.*)");
            reveal_strlit("decoder.blocks.1.res2.$1");
            assert(spec_autoencoder_rules()[12] == (r"first_stage_model\.decoder\.up\.2\.block\.1\.(.*)"@, "decoder.blocks.1.res2.$1"@));
            assert(r"first_stage_model\.decoder\.up\.2\.block\.1\.(.*)"@.subrange(0, 19) =~= r"first_stage_model\."@);
            assert(has_prefix(r"first_stage_model\.decoder\.up\.2\.block\.1\.(.*)"@, r"first_stage_model\."@));
        } else if i == 13 {
            reveal_strlit(r"first_stage_model\.decoder\.up\.2\.block\.2\.(.*)");
            reveal_strlit("decoder.blocks.1.res3.$1");
            assert(spec_autoencoder_rules()[13] == (r"first_stage_model\.decoder\.up\.2\.block\.2\.(.*)"@, "decoder.blocks.1.res3.$1"@));
            assert(r"first_stage_model\.decoder\.up\.2\.block\.2\.(.*)"@.subrange(0, 19) =~= r"first_stage_model\."@);
            assert(has_prefix(r"first_stage_model\.decoder\.up\.2\.block\.2\.(.*)"@, r"first_stage_model\."@));
        } else if i == 14 {
            reveal_strlit(r"first_stage_model\.decoder\.up\.2\.upsample\.conv\.(.*)");
            reveal_strlit("decoder.blocks.1.upsampler.$1");
            assert(spec_autoencoder_rules()[14] == (r"first_stage_model\.decoder\.up\.2\.upsample\.conv\.(.*)"@, "decoder.blocks.1.upsampler.$1"@));
            assert(r"first_stage_model\.decoder\.up\.2\.upsample\.conv\.(.*)"@.subrange(0, 19) =~= r"first_stage_model\."@);
            assert(has_prefix(r"first_stage_model\.decoder\.up\.2\.upsample\.conv\.(.*)"@, r"first_stage_model\."@));
        } else if i == 15 {
            reveal_strlit(r"first_stage_model\.decoder\.up\.3\.block\.0\.(.*)");
            reveal_strlit("decoder.blocks.0.res1.$1");
            assert(spec_autoencoder_rules()[15] == (r"first_stage_model\.decoder\.up\.3\.block\.0\.(.*)"@, "decoder.blocks.0.res1.$1"@));
            assert(r"first_stage_model\.decoder\.up\.3\.block\.0\.(.*)"@.subrange(0, 19) =~= r"first_stage_model\."@);
            assert(has_prefix(r"first_stage_model\.decoder\.up\.3\.block\.0\.(.*)"@, r"first_stage_model\."@));
        } else if i == 16 {
            reveal_strlit(r"first_stage_model\.decoder\.up\.3\.block\.1\.(.*)");
            reveal_strlit("decoder.blocks.0.res2.$1");
            assert(spec_autoencoder_rules()[16] == (r"first_stage_model\.decoder\.up\.3\.block\.1\.(.*)"@, "decoder.blocks.0.res2.$1"@));
            assert(r"first_stage_model\.decoder\.up\.3\.block\.1\.(.*)"@.subrange(0, 19) =~= r"first_stage_model\."@);
            assert(has_prefix(r"first_stage_model\.decoder\.up\.3\.block\.1\.(.*)"@, r"first_stage_model\."@));
        } else if i == 17 {
            reveal_strlit(r"first_stage_model\.decoder\.up\.3\.block\.2\.(.*)");
            reveal_strlit("decoder.blocks.0.res3.$1");
            assert(spec_autoencoder_rules()[17] == (r"first_stage_model\.decoder\.up\.3\.block\.2\.(.*)"@, "decoder.blocks.0.res3.$1"@));
            assert(r"first_stage_model\.decoder\.up\.3\.block\.2\.(.*)"@.subrange(0, 19) =~= r"first_stage_model\."@);
            assert(has_prefix(r"first_stage_model\.decoder\.up\.3\.block\.2\.(.*)"@, r"first_stage_model\."@));
        } else if i == 18 {
            reveal_strlit(r"first_stage_model\.decoder\.up\.3\.upsample\.conv\.(.*)");
            reveal_strlit("decoder.blocks.0.upsampler.$1");
            assert(spec_autoencoder_rules()[18] == (r"first_stage_model\.decoder\.up\.3\.upsample\.conv\.(.*)"@, "decoder.blocks.0.upsampler.$1"@));
            assert(r"first_stage_model\.decoder\.up\.3\.upsample\.conv\.(.*)"@.subrange(0, 19) =~= r"first_stage_model\."@);
            assert(has_prefix(r"first_stage_model\.decoder\.up\.3\.upsample\.conv\.(.*)"@, r"first_stage_model\."@));
        } else if i == 19 {
            reveal_strlit(r"first_stage_model\.decoder\.norm_out");
            reveal_strlit("decoder.norm_out");
            assert(spec_autoencoder_rules()[19] == (r"first_stage_model\.decoder\.norm_out"@, "decoder.norm_out"@));
            assert(r"first_stage_model\.decoder\.norm_out"@.subrange(0, 19) =~= r"first_stage_model\."@);
            assert(has_prefix(r"first_stage_model\.decoder\.norm_out"@, r"first_stage_model\."@));
        } else if i == 20 {
            reveal_strlit(r"first_stage_model\.decoder\.mid\.block_(1|2)\.(.*)");
            reveal_strlit("decoder.mid.block_$1.$2");
            assert(spec_autoencoder_rules()[20] == (r"first_stage_model\.decoder\.mid\.block_(1|2)\.(.*)"@, "decoder.mid.block_$1.$2"@));
            assert(r"first_stage_model\.decoder\.mid\.block_(1|2)\.(.*)"@.subrange(0, 19) =~= r"first_stage_model\."@);
            assert(has_prefix(r"first_stage_model\.decoder\.mid\.block_(1|2)\.(.*)"@, r"first_stage_model\."@));
        } else if i == 21 {
            reveal_strlit(r"first_stage_model\.decoder\.mid\.block_(1|2)\.(.*)");
            reveal_strlit("decoder.mid.block_$1.$2");
            assert(spec_autoencoder_rules()[21] == (r"first_stage_model\.decoder\.mid\.block_(1|2)\.(.*)"@, "decoder.mid.block_$1.$2"@));
            assert(r"first_stage_model\.decoder\.mid\.block_(1|2)\.(.*)"@.subrange(0, 19) =~= r"first_stage_model\."@);
            assert(has_prefix(r"first_stage_model\.decoder\.mid\.block_(1|2)\.(.*)"@, r"first_stage_model\."@));
        } else if i == 22 {
            reveal_strlit(r"first_stage_model\.decoder\.mid\.attn_1\.norm");
            reveal_strlit("decoder.mid.attn.norm");
            assert(spec_autoencoder_rules()[22] == (r"first_stage_model\.decoder\.mid\.attn_1\.norm"@, "decoder.mid.attn.norm"@));
            assert(r"first_stage_model\.decoder\.mid\.attn_1\.norm"@.subrange(0, 19) =~= r"first_stage_model\."@);
            assert(has_prefix(r"first_stage_model\.decoder\.mid\.attn_1\.norm"@, r"first_stage_model\."@));
        } else if i == 23 {
            reveal_strlit(r"first_stage_model\.decoder\.mid\.attn_1\.(q|k|v|proj_out)");
            reveal_strlit("decoder.mid.attn.$1");
            assert(spec_autoencoder_rules()[23] == (r"first_stage_model\.decoder\.mid\.attn_1\.(q|k|v|proj_out)"@, "decoder.mid.attn.$1"@));
            assert(r"first_stage_model\.decoder\.mid\.attn_1\.(q|k|v|proj_out)"@.subrange(0, 19) =~= r"first_stage_model\."@);
            assert(has_prefix(r"first_stage_model\.decoder\.mid\.attn_1\.(q|k|v|proj_out)"@, r"first_stage_model\."@));
        } else if i == 24 {
            reveal_strlit(r"first_stage_model\.encoder\.conv_in");
            reveal_strlit("encoder.conv_in");
            assert(spec_autoencoder_rules()[24] == (r"first_stage_model\.encoder\.conv_in"@, "encoder.conv_in"@));
            assert(r"first_stage_model\.encoder\.conv_in"@.subrange(0, 19) =~= r"first_stage_model\."@);
            assert(has_prefix(r"first_stage_model\.encoder\.conv_in"@, r"first_stage_model\."@));
        } else if i == 25 {
            reveal_strlit(r"first_stage_model\.encoder\.conv_out");
            reveal_strlit("encoder.conv_out");
            assert(spec_autoencoder_rules()[25] == (r"first_stage_model\.encoder\.conv_out"@, "encoder.conv_out"@));
            assert(r"first_stage_model\.encoder\.conv_out"@.subrange(0, 19) =~= r"first_stage_model\."@);
            assert(has_prefix(r"first_stage_model\.encoder\.conv_out"@, r"first_stage_model\."@));
        } else if i == 26 {
            reveal_strlit(r"first_stage_model\.encoder\.down\.(\d+)\.block\.0\.(.*)");
            reveal_strlit("encoder.blocks.$1.res1.$2");
            assert(spec_autoencoder_rules()[26] == (r"first_stage_model\.encoder\.down\.(\d+)\.block\.0\.(.*)"@, "encoder.blocks.$1.res1.$2"@));
            assert(r"first_stage_model\.encoder\.down\.(\d+)\.block\.0\.(.*)"@.subrange(0, 19) =~= r"first_stage_model\."@);
            assert(has_prefix(r"first_stage_model\.encoder\.down\.(\d+)\.block\.0\.(.*)"@, r"first_stage_model\."@));
        } else if i == 27 {
            reveal_strlit(r"first_stage_model\.encoder\.down\.(\d+)\.block\.1\.(.*)");
            reveal_strlit("encoder.blocks.$1.res2.$2");
            assert(spec_autoencoder_rules()[27] == (r"first_stage_model\.encoder\.down\.(\d+)\.block\.1\.(.*)"@, "encoder.blocks.$1.res2.$2"@));
            assert(r"first_stage_model\.encoder\.down\.(\d+)\.block\.1\.(.*)"@.subrange(0, 19) =~= r"first_stage_model\."@);
            assert(has_prefix(r"first_stage_model\.encoder\.down\.(\d+)\.block\.1\.(.*)"@, r"first_stage_model\."@));
        } else if i == 28 {
            reveal_strlit(r"first_stage_model\.encoder\.down\.(\d+)\.downsample\.conv\.(.*)");
            reveal_strlit("encoder.blocks.$1.downsampler.conv.$2");
            assert(spec_autoencoder_rules()[28] == (r"first_stage_model\.encoder\.down\.(\d+)\.downsample\.conv\.(.*)"@, "encoder.blocks.$1.downsampler.conv.$2"@));
            assert(r"first_stage_model\.encoder\.down\.(\d+)\.downsample\.conv\.(.*)"@.subrange(0, 19) =~= r"first_stage_model\."@);
            assert(has_prefix(r"first_stage_model\.encoder\.down\.(\d+)\.downsample\.conv\.(.*)"@, r"first_stage_model\."@));
        } else if i == 29 {
            reveal_strlit(r"first_stage_model\.encoder\.norm_out");
            reveal_strlit("encoder.norm_out");
            assert(spec_autoencoder_rules()[29] == (r"first_stage_model\.encoder\.norm_out"@, "encoder.norm_out"@));
            assert(r"first_stage_model\.encoder\.norm_out"@.subrange(0, 19) =~= r"first_stage_model\."@);
            assert(has_prefix(r"first_stage_model\.encoder\.norm_out"@, r"first_stage_model\."@));
        } else if i == 30 {
            reveal_strlit(r"first_stage_model\.encoder\.mid\.block_(1|2)\.(.*)");
            reveal_strlit("encoder.mid.block_$1.$2");
            assert(spec_autoencoder_rules()[30] == (r"first_stage_model\.encoder\.mid\.block_(1|2)\.(.*)"@, "encoder.mid.block_$1.$2"@));
            assert(r"first_stage_model\.encoder\.mid\.block_(1|2)\.(.*)"@.subrange(0, 19) =~= r"first_stage_model\."@);
            assert(has_prefix(r"first_stage_model\.encoder\.mid\.block_(1|2)\.(.*)"@, r"first_stage_model\."@));
        } else if i == 31 {
            reveal_strlit(r"first_stage_model\.encoder\.mid\.block_(1|2)\.(.*)");
            reveal_strlit("encoder.mid.block_$1.$2");
            assert(spec_autoencoder_rules()[31] == (r"first_stage_model\.encoder\.mid\.block_(1|2)\.(.*)"@, "encoder.mid.block_$1.$2"@));
            assert(r"first_stage_model\.encoder\.mid\.block_(1|2)\.(.*)"@.subrange(0, 19) =~= r"first_stage_model\."@);
            assert(has_prefix(r"first_stage_model\.encoder\.mid\.block_(1|2)\.(.*)"@, r"first_stage_model\."@));
        } else if i == 32 {
            reveal_strlit(r"first_stage_model\.encoder\.mid\.attn_1\.norm");
            reveal_strlit("encoder.mid.attn.norm");
            assert(spec_autoencoder_rules()[32] == (r"first_stage_model\.encoder\.mid\.attn_1\.norm"@, "encoder.mid.attn.norm"@));
            assert(r"first_stage_model\.encoder\.mid\.attn_1\.norm"@.subrange(0, 19) =~= r"first_stage_model\."@);
            assert(has_prefix(r"first_stage_model\.encoder\.mid\.attn_1\.norm"@, r"first_stage_model\."@));
        } else if i == 33 {
            reveal_strlit(r"first_stage_model\.encoder\.mid\.attn_1\.(q|k|v|proj_out)");
            reveal_strlit("encoder.mid.attn.$1");
            assert(spec_autoencoder_rules()[33] == (r"first_stage_model\.encoder\.mid\.attn_1\.(q|k|v|proj_out)"@, "encoder.mid.attn.$1"@));
            assert(r"first_stage_model\.encoder\.mid\.attn_1\.(q|k|v|proj_out)"@.subrange(0, 19) =~= r"first_stage_model\."@);
            assert(has_prefix(r"first_stage_model\.encoder\.mid\.attn_1\.(q|k|v|proj_out)"@, r"first_stage_model\."@));
        }
    }
}

/// Whether `s` begins with neither the `c` of the CLIP names nor the `f` of
/// the first-stage names.
spec fn starts_outside_clip_and_first_stage(s: Seq<char>) -> bool {
    s.len() > 0 && s[0] != 'c' && s[0] != 'f'
}

/// No U-Net rule's pattern begins like a CLIP or an autoencoder name.
proof fn lemma_unet_patterns_first_char()
    ensures
        forall|i: int|
            0 <= i < spec_unet_rules().len() ==> starts_outside_clip_and_first_stage(
                #[trigger] spec_unet_rules()[i].0,
            ),
{
    assert forall|i: int| 0 <= i < spec_unet_rules().len() implies starts_outside_clip_and_first_stage(
        #[trigger] spec_unet_rules()[i].0,
    ) by {
        if i == 0 {
            reveal_strlit(r"model\.diffusion_model\.time_embed\.0");
            assert(spec_unet_rules()[0].0 == r"model\.diffusion_model\.time_embed\.0"@);
            assert(r"model\.diffusion_model\.time_embed\.0"@[0] != 'c' && r"model\.diffusion_model\.time_embed\.0"@[0] != 'f');
        } else if i == 1 {
            reveal_strlit(r"model\.diffusion_model\.time_embed\.2");
            assert(spec_unet_rules()[1].0 == r"model\.diffusion_model\.time_embed\.2"@);
            assert(r"model\.diffusion_model\.time_embed\.2"@[0] != 'c' && r"model\.diffusion_model\.time_embed\.2"@[0] != 'f');
        } else if i == 2 {
            reveal_strlit(r"model\.diffusion_model\.out\.0");
            assert(spec_unet_rules()[2].0 == r"model\.diffusion_model\.out\.0"@);
            assert(r"model\.diffusion_model\.out\.0"@[0] != 'c' && r"model\.diffusion_model\.out\.0"@[0] != 'f');
        } else if i == 3 {
            reveal_strlit(r"model\.diffusion_model\.out\.2");
            assert(spec_unet_rules()[3].0 == r"model\.diffusion_model\.out\.2"@);
            assert(r"model\.diffusion_model\.out\.2"@[0] != 'c' && r"model\.diffusion_model\.out\.2"@[0] != 'f');
        } else if i == 4 {
            reveal_strlit(r"model\.diffusion_model\.input_blocks");
            assert(spec_unet_rules()[4].0 == r"model\.diffusion_model\.input_blocks"@);
            assert(r"model\.diffusion_model\.input_blocks"@[0] != 'c' && r"model\.diffusion_model\.input_blocks"@[0] != 'f');
        } else if i == 5 {
            reveal_strlit(r"model\.diffusion_model\.output_blocks");
            assert(spec_unet_rules()[5].0 == r"model\.diffusion_model\.output_blocks"@);
            assert(r"model\.diffusion_model\.output_blocks"@[0] != 'c' && r"model\.diffusion_model\.output_blocks"@[0] != 'f');
        } else if i == 6 {
            reveal_strlit(r"model\.diffusion_model\.middle_block");
            assert(spec_unet_rules()[6].0 == r"model\.diffusion_model\.middle_block"@);
            assert(r"model\.diffusion_model\.middle_block"@[0] != 'c' && r"model\.diffusion_model\.middle_block"@[0] != 'f');
        } else if i == 7 {
            reveal_strlit(r"input_blocks\.0\.0");
            assert(spec_unet_rules()[7].0 == r"input_blocks\.0\.0"@);
            assert(r"input_blocks\.0\.0"@[0] != 'c' && r"input_blocks\.0\.0"@[0] != 'f');
        } else if i == 8 {
            reveal_strlit(r"input_blocks\.1\.");
            assert(spec_unet_rules()[8].0 == r"input_blocks\.1\."@);
            assert(r"input_blocks\.1\."@[0] != 'c' && r"input_blocks\.1\."@[0] != 'f');
        } else if i == 9 {
            reveal_strlit(r"input_blocks\.2\.");
            assert(spec_unet_rules()[9].0 == r"input_blocks\.2\."@);
            assert(r"input_blocks\.2\."@[0] != 'c' && r"input_blocks\.2\."@[0] != 'f');
        } else if i == 10 {
            reveal_strlit(r"input_blocks\.3\.0.op");
            assert(spec_unet_rules()[10].0 == r"input_blocks\.3\.0.op"@);
            assert(r"input_blocks\.3\.0.op"@[0] != 'c' && r"input_blocks\.3\.0.op"@[0] != 'f');
        } else if i == 11 {
            reveal_strlit(r"input_blocks\.4\.");
            assert(spec_unet_rules()[11].0 == r"input_blocks\.4\."@);
            assert(r"input_blocks\.4\."@[0] != 'c' && r"input_blocks\.4\."@[0] != 'f');
        } else if i == 12 {
            reveal_strlit(r"input_blocks\.5\.");
            assert(spec_unet_rules()[12].0 == r"input_blocks\.5\."@);
            assert(r"input_blocks\.5\."@[0] != 'c' && r"input_blocks\.5\."@[0] != 'f');
        } else if i == 13 {
            reveal_strlit(r"input_blocks\.6\.0.op");
            assert(spec_unet_rules()[13].0 == r"input_blocks\.6\.0.op"@);
            assert(r"input_blocks\.6\.0.op"@[0] != 'c' && r"input_blocks\.6\.0.op"@[0] != 'f');
        } else if i == 14 {
            reveal_strlit(r"input_blocks\.7\.");
            assert(spec_unet_rules()[14].0 == r"input_blocks\.7\."@);
            assert(r"input_blocks\.7\."@[0] != 'c' && r"input_blocks\.7\."@[0] != 'f');
        } else if i == 15 {
            reveal_strlit(r"input_blocks\.8\.");
            assert(spec_unet_rules()[15].0 == r"input_blocks\.8\."@);
            assert(r"input_blocks\.8\."@[0] != 'c' && r"input_blocks\.8\."@[0] != 'f');
        } else if i == 16 {
            reveal_strlit(r"input_blocks\.9\.0.op");
            assert(spec_unet_rules()[16].0 == r"input_blocks\.9\.0.op"@);
            assert(r"input_blocks\.9\.0.op"@[0] != 'c' && r"input_blocks\.9\.0.op"@[0] != 'f');
        } else if i == 17 {
            reveal_strlit(r"input_blocks\.10\.");
            assert(spec_unet_rules()[17].0 == r"input_blocks\.10\."@);
            assert(r"input_blocks\.10\."@[0] != 'c' && r"input_blocks\.10\."@[0] != 'f');
        } else if i == 18 {
            reveal_strlit(r"input_blocks\.11\.");
            assert(spec_unet_rules()[18].0 == r"input_blocks\.11\."@);
            assert(r"input_blocks\.11\."@[0] != 'c' && r"input_blocks\.11\."@[0] != 'f');
        } else if i == 19 {
            reveal_strlit(r"output_blocks\.0\.");
            assert(spec_unet_rules()[19].0 == r"output_blocks\.0\."@);
            assert(r"output_blocks\.0\."@[0] != 'c' && r"output_blocks\.0\."@[0] != 'f');
        } else if i == 20 {
            reveal_strlit(r"output_blocks\.1\.");
            assert(spec_unet_rules()[20].0 == r"output_blocks\.1\."@);
            assert(r"output_blocks\.1\."@[0] != 'c' && r"output_blocks\.1\."@[0] != 'f');
        } else if i == 21 {
            reveal_strlit(r"output_blocks\.2\.");
            assert(spec_unet_rules()[21].0 == r"output_blocks\.2\."@);
            assert(r"output_blocks\.2\."@[0] != 'c' && r"output_blocks\.2\."@[0] != 'f');
        } else if i == 22 {
            reveal_strlit(r"output_blocks\.3\.");
            assert(spec_unet_rules()[22].0 == r"output_blocks\.3\."@);
            assert(r"output_blocks\.3\."@[0] != 'c' && r"output_blocks\.3\."@[0] != 'f');
        } else if i == 23 {
            reveal_strlit(r"output_blocks\.4\.");
            assert(spec_unet_rules()[23].0 == r"output_blocks\.4\."@);
            assert(r"output_blocks\.4\."@[0] != 'c' && r"output_blocks\.4\."@[0] != 'f');
        } else if i == 24 {
            reveal_strlit(r"output_blocks\.5\.");
            assert(spec_unet_rules()[24].0 == r"output_blocks\.5\."@);
            assert(r"output_blocks\.5\."@[0] != 'c' && r"output_blocks\.5\."@[0] != 'f');
        } else if i == 25 {
            reveal_strlit(r"output_blocks\.6\.");
            assert(spec_unet_rules()[25].0 == r"output_blocks\.6\."@);
            assert(r"output_blocks\.6\."@[0] != 'c' && r"output_blocks\.6\."@[0] != 'f');
        } else if i == 26 {
            reveal_strlit(r"output_blocks\.7\.");
            assert(spec_unet_rules()[26].0 == r"output_blocks\.7\."@);
            assert(r"output_blocks\.7\."@[0] != 'c' && r"output_blocks\.7\."@[0] != 'f');
        } else if i == 27 {
            reveal_strlit(r"output_blocks\.8\.");
            assert(spec_unet_rules()[27].0 == r"output_blocks\.8\."@);
            assert(r"output_blocks\.8\."@[0] != 'c' && r"output_blocks\.8\."@[0] != 'f');
        } else if i == 28 {
            reveal_strlit(r"output_blocks\.9\.");
            assert(spec_unet_rules()[28].0 == r"output_blocks\.9\."@);
            assert(r"output_blocks\.9\."@[0] != 'c' && r"output_blocks\.9\."@[0] != 'f');
        } else if i == 29 {
            reveal_strlit(r"output_blocks\.10\.");
            assert(spec_unet_rules()[29].0 == r"output_blocks\.10\."@);
            assert(r"output_blocks\.10\."@[0] != 'c' && r"output_blocks\.10\."@[0] != 'f');
        } else if i == 30 {
            reveal_strlit(r"output_blocks\.11\.");
            assert(spec_unet_rules()[30].0 == r"output_blocks\.11\."@);
            assert(r"output_blocks\.11\."@[0] != 'c' && r"output_blocks\.11\."@[0] != 'f');
        } else if i == 31 {
            reveal_strlit(r"(rt\d+|ru|rtu\d+)\.0\.in_layers\.0");
            assert(spec_unet_rules()[31].0 == r"(rt\d+|ru|rtu\d+)\.0\.in_layers\.0"@);
            assert(r"(rt\d+|ru|rtu\d+)\.0\.in_layers\.0"@[0] != 'c' && r"(rt\d+|ru|rtu\d+)\.0\.in_layers\.0"@[0] != 'f');
        } else if i == 32 {
            reveal_strlit(r"(rt\d+|ru|rtu\d+)\.0\.in_layers\.2");
            assert(spec_unet_rules()[32].0 == r"(rt\d+|ru|rtu\d+)\.0\.in_layers\.2"@);
            assert(r"(rt\d+|ru|rtu\d+)\.0\.in_layers\.2"@[0] != 'c' && r"(rt\d+|ru|rtu\d+)\.0\.in_layers\.2"@[0] != 'f');
        } else if i == 33 {
            reveal_strlit(r"(rt\d+|ru|rtu\d+)\.0\.emb_layers\.1");
            assert(spec_unet_rules()[33].0 == r"(rt\d+|ru|rtu\d+)\.0\.emb_layers\.1"@);
            assert(r"(rt\d+|ru|rtu\d+)\.0\.emb_layers\.1"@[0] != 'c' && r"(rt\d+|ru|rtu\d+)\.0\.emb_layers\.1"@[0] != 'f');
        } else if i == 34 {
            reveal_strlit(r"(rt\d+|ru|rtu\d+)\.0\.out_layers\.0");
            assert(spec_unet_rules()[34].0 == r"(rt\d+|ru|rtu\d+)\.0\.out_layers\.0"@);
            assert(r"(rt\d+|ru|rtu\d+)\.0\.out_layers\.0"@[0] != 'c' && r"(rt\d+|ru|rtu\d+)\.0\.out_layers\.0"@[0] != 'f');
        } else if i == 35 {
            reveal_strlit(r"(rt\d+|ru|rtu\d+)\.0\.out_layers\.3");
            assert(spec_unet_rules()[35].0 == r"(rt\d+|ru|rtu\d+)\.0\.out_layers\.3"@);
            assert(r"(rt\d+|ru|rtu\d+)\.0\.out_layers\.3"@[0] != 'c' && r"(rt\d+|ru|rtu\d+)\.0\.out_layers\.3"@[0] != 'f');
        } else if i == 36 {
            reveal_strlit(r"(rt\d+|ru|rtu\d+)\.0\.skip_connection");
            assert(spec_unet_rules()[36].0 == r"(rt\d+|ru|rtu\d+)\.0\.skip_connection"@);
            assert(r"(rt\d+|ru|rtu\d+)\.0\.skip_connection"@[0] != 'c' && r"(rt\d+|ru|rtu\d+)\.0\.skip_connection"@[0] != 'f');
        } else if i == 37 {
            reveal_strlit(r"(ru)\.1");
            assert(spec_unet_rules()[37].0 == r"(ru)\.1"@);
            assert(r"(ru)\.1"@[0] != 'c' && r"(ru)\.1"@[0] != 'f');
        } else if i == 38 {
            reveal_strlit(r"(rtu\d+)\.2");
            assert(spec_unet_rules()[38].0 == r"(rtu\d+)\.2"@);
            assert(r"(rtu\d+)\.2"@[0] != 'c' && r"(rtu\d+)\.2"@[0] != 'f');
        } else if i == 39 {
            reveal_strlit(r"(r\d+)\.0\.in_layers\.0");
            assert(spec_unet_rules()[39].0 == r"(r\d+)\.0\.in_layers\.0"@);
            assert(r"(r\d+)\.0\.in_layers\.0"@[0] != 'c' && r"(r\d+)\.0\.in_layers\.0"@[0] != 'f');
        } else if i == 40 {
            reveal_strlit(r"(r\d+)\.0\.in_layers\.2");
            assert(spec_unet_rules()[40].0 == r"(r\d+)\.0\.in_layers\.2"@);
            assert(r"(r\d+)\.0\.in_layers\.2"@[0] != 'c' && r"(r\d+)\.0\.in_layers\.2"@[0] != 'f');
        } else if i == 41 {
            reveal_strlit(r"(r\d+)\.0\.emb_layers\.1");
            assert(spec_unet_rules()[41].0 == r"(r\d+)\.0\.emb_layers\.1"@);
            assert(r"(r\d+)\.0\.emb_layers\.1"@[0] != 'c' && r"(r\d+)\.0\.emb_layers\.1"@[0] != 'f');
        } else if i == 42 {
            reveal_strlit(r"(r\d+)\.0\.out_layers\.0");
            assert(spec_unet_rules()[42].0 == r"(r\d+)\.0\.out_layers\.0"@);
            assert(r"(r\d+)\.0\.out_layers\.0"@[0] != 'c' && r"(r\d+)\.0\.out_layers\.0"@[0] != 'f');
        } else if i == 43 {
            reveal_strlit(r"(r\d+)\.0\.out_layers\.3");
            assert(spec_unet_rules()[43].0 == r"(r\d+)\.0\.out_layers\.3"@);
            assert(r"(r\d+)\.0\.out_layers\.3"@[0] != 'c' && r"(r\d+)\.0\.out_layers\.3"@[0] != 'f');
        } else if i == 44 {
            reveal_strlit(r"(r\d+)\.0\.skip_connection");
            assert(spec_unet_rules()[44].0 == r"(r\d+)\.0\.skip_connection"@);
            assert(r"(r\d+)\.0\.skip_connection"@[0] != 'c' && r"(r\d+)\.0\.skip_connection"@[0] != 'f');
        } else if i == 45 {
            reveal_strlit(r"middle_block\.0\.in_layers\.0");
            assert(spec_unet_rules()[45].0 == r"middle_block\.0\.in_layers\.0"@);
            assert(r"middle_block\.0\.in_layers\.0"@[0] != 'c' && r"middle_block\.0\.in_layers\.0"@[0] != 'f');
        } else if i == 46 {
            reveal_strlit(r"middle_block\.0\.in_layers\.2");
            assert(spec_unet_rules()[46].0 == r"middle_block\.0\.in_layers\.2"@);
            assert(r"middle_block\.0\.in_layers\.2"@[0] != 'c' && r"middle_block\.0\.in_layers\.2"@[0] != 'f');
        } else if i == 47 {
            reveal_strlit(r"middle_block\.0\.emb_layers\.1");
            assert(spec_unet_rules()[47].0 == r"middle_block\.0\.emb_layers\.1"@);
            assert(r"middle_block\.0\.emb_layers\.1"@[0] != 'c' && r"middle_block\.0\.emb_layers\.1"@[0] != 'f');
        } else if i == 48 {
            reveal_strlit(r"middle_block\.0\.out_layers\.0");
            assert(spec_unet_rules()[48].0 == r"middle_block\.0\.out_layers\.0"@);
            assert(r"middle_block\.0\.out_layers\.0"@[0] != 'c' && r"middle_block\.0\.out_layers\.0"@[0] != 'f');
        } else if i == 49 {
            reveal_strlit(r"middle_block\.0\.out_layers\.3");
            assert(spec_unet_rules()[49].0 == r"middle_block\.0\.out_layers\.3"@);
            assert(r"middle_block\.0\.out_layers\.3"@[0] != 'c' && r"middle_block\.0\.out_layers\.3"@[0] != 'f');
        } else if i == 50 {
            reveal_strlit(r"middle_block\.1");
            assert(spec_unet_rules()[50].0 == r"middle_block\.1"@);
            assert(r"middle_block\.1"@[0] != 'c' && r"middle_block\.1"@[0] != 'f');
        } else if i == 51 {
            reveal_strlit(r"middle_block\.2\.in_layers\.0");
            assert(spec_unet_rules()[51].0 == r"middle_block\.2\.in_layers\.0"@);
            assert(r"middle_block\.2\.in_layers\.0"@[0] != 'c' && r"middle_block\.2\.in_layers\.0"@[0] != 'f');
        } else if i == 52 {
            reveal_strlit(r"middle_block\.2\.in_layers\.2");
            assert(spec_unet_rules()[52].0 == r"middle_block\.2\.in_layers\.2"@);
            assert(r"middle_block\.2\.in_layers\.2"@[0] != 'c' && r"middle_block\.2\.in_layers\.2"@[0] != 'f');
        } else if i == 53 {
            reveal_strlit(r"middle_block\.2\.emb_layers\.1");
            assert(spec_unet_rules()[53].0 == r"middle_block\.2\.emb_layers\.1"@);
            assert(r"middle_block\.2\.emb_layers\.1"@[0] != 'c' && r"middle_block\.2\.emb_layers\.1"@[0] != 'f');
        } else if i == 54 {
            reveal_strlit(r"middle_block\.2\.out_layers\.0");
            assert(spec_unet_rules()[54].0 == r"middle_block\.2\.out_layers\.0"@);
            assert(r"middle_block\.2\.out_layers\.0"@[0] != 'c' && r"middle_block\.2\.out_layers\.0"@[0] != 'f');
        } else if i == 55 {
            reveal_strlit(r"middle_block\.2\.out_layers\.3");
            assert(spec_unet_rules()[55].0 == r"middle_block\.2\.out_layers\.3"@);
            assert(r"middle_block\.2\.out_layers\.3"@[0] != 'c' && r"middle_block\.2\.out_layers\.3"@[0] != 'f');
        } else if i == 56 {
            reveal_strlit(r"middle_block\.1");
            assert(spec_unet_rules()[56].0 == r"middle_block\.1"@);
            assert(r"middle_block\.1"@[0] != 'c' && r"middle_block\.1"@[0] != 'f');
        } else if i == 57 {
            reveal_strlit(r"(rt\d+|rtu\d+)\.1");
            assert(spec_unet_rules()[57].0 == r"(rt\d+|rtu\d+)\.1"@);
            assert(r"(rt\d+|rtu\d+)\.1"@[0] != 'c' && r"(rt\d+|rtu\d+)\.1"@[0] != 'f');
        } else if i == 58 {
            reveal_strlit(r"(.*?).transformer_blocks.0");
            assert(spec_unet_rules()[58].0 == r"(.*?).transformer_blocks.0"@);
            assert(r"(.*?).transformer_blocks.0"@[0] != 'c' && r"(.*?).transformer_blocks.0"@[0] != 'f');
        } else if i == 59 {
            reveal_strlit(r"transformer.attn(\d+)\.to_q");
            assert(spec_unet_rules()[59].0 == r"transformer.attn(\d+)\.to_q"@);
            assert(r"transformer.attn(\d+)\.to_q"@[0] != 'c' && r"transformer.attn(\d+)\.to_q"@[0] != 'f');
        } else if i == 60 {
            reveal_strlit(r"transformer.attn(\d+)\.to_k");
            assert(spec_unet_rules()[60].0 == r"transformer.attn(\d+)\.to_k"@);
            assert(r"transformer.attn(\d+)\.to_k"@[0] != 'c' && r"transformer.attn(\d+)\.to_k"@[0] != 'f');
        } else if i == 61 {
            reveal_strlit(r"transformer.attn(\d+)\.to_v");
            assert(spec_unet_rules()[61].0 == r"transformer.attn(\d+)\.to_v"@);
            assert(r"transformer.attn(\d+)\.to_v"@[0] != 'c' && r"transformer.attn(\d+)\.to_v"@[0] != 'f');
        } else if i == 62 {
            reveal_strlit(r"transformer.attn(\d+)\.to_out.0");
            assert(spec_unet_rules()[62].0 == r"transformer.attn(\d+)\.to_out.0"@);
            assert(r"transformer.attn(\d+)\.to_out.0"@[0] != 'c' && r"transformer.attn(\d+)\.to_out.0"@[0] != 'f');
        } else if i == 63 {
            reveal_strlit(r"transformer.ff\.net.0.proj");
            assert(spec_unet_rules()[63].0 == r"transformer.ff\.net.0.proj"@);
            assert(r"transformer.ff\.net.0.proj"@[0] != 'c' && r"transformer.ff\.net.0.proj"@[0] != 'f');
        } else if i == 64 {
            reveal_strlit(r"transformer.ff\.net.2");
            assert(spec_unet_rules()[64].0 == r"transformer.ff\.net.2"@);
            assert(r"transformer.ff\.net.2"@[0] != 'c' && r"transformer.ff\.net.2"@[0] != 'f');
        } else if i == 65 {
            reveal_strlit("norm(.*?).weight");
            assert(spec_unet_rules()[65].0 == "norm(.*?).weight"@);
            assert("norm(.*?).weight"@[0] != 'c' && "norm(.*?).weight"@[0] != 'f');
        } else if i == 66 {
            reveal_strlit("norm(.*?).bias");
            assert(spec_unet_rules()[66].0 == "norm(.*?).bias"@);
            assert("norm(.*?).bias"@[0] != 'c' && "norm(.*?).bias"@[0] != 'f');
        }
    }
}

/// In the full checkpoint rule list, every rule whose pattern is a CLIP
/// text-model name renames into the model's `clip.` part, and every rule
/// whose pattern is a first-stage name renames into its `autoencoder.` part.
pub proof fn lemma_sd_rules_route_parts()
    ensures
        forall|i: int|
            0 <= i < spec_sd_rules().len() && has_prefix(
                #[trigger] spec_sd_rules()[i].0,
                r"cond_stage_model\.transformer\.text_model\."@,
            ) ==> has_prefix(spec_sd_rules()[i].1, "clip."@),
        forall|i: int|
            0 <= i < spec_sd_rules().len() && has_prefix(
                #[trigger] spec_sd_rules()[i].0,
                r"first_stage_model\."@,
            ) ==> has_prefix(spec_sd_rules()[i].1, "autoencoder."@),
{
    reveal_strlit(r"cond_stage_model\.transformer\.text_model\.");
    reveal_strlit(r"first_stage_model\.");
    reveal_strlit("clip.");
    reveal_strlit("autoencoder.");
    reveal_strlit("alphas_cumprod");
    lemma_clip_rules_keep_layer_numbers();
    lemma_autoencoder_rules_stay_in_first_stage();
    lemma_unet_patterns_first_char();
    let c = spec_clip_rules().len() as int;
    let a = spec_autoencoder_rules().len() as int;
    let u = spec_unet_rules().len() as int;
    let sd = spec_sd_rules();
    assert forall|i: int| 0 <= i < sd.len() implies {
        &&& has_prefix(#[trigger] sd[i].0, r"cond_stage_model\.transformer\.text_model\."@) ==> has_prefix(sd[i].1, "clip."@)
        &&& has_prefix(sd[i].0, r"first_stage_model\."@) ==> has_prefix(sd[i].1, "autoencoder."@)
    } by {
        if i < c {
            let r = spec_clip_rules()[i];
            assert(sd[i] == (r.0, "clip."@ + r.1));
            assert((("clip."@ + r.1).subrange(0, 5)) =~= "clip."@);
            assert(has_prefix(r.0, r"cond_stage_model\.transformer\.text_model\."@));
            assert(r.0.subrange(0, 43)[0] == r.0[0]);
            assert(r.0[0] == 'c');
            if has_prefix(r.0, r"first_stage_model\."@) {
                assert(r.0.subrange(0, 19)[0] == r.0[0]);
            }
        } else if i < c + a {
            let r = spec_autoencoder_rules()[i - c];
            assert(sd[i] == (r.0, "autoencoder."@ + r.1));
            assert((("autoencoder."@ + r.1).subrange(0, 12)) =~= "autoencoder."@);
            assert(has_prefix(r.0, r"first_stage_model\."@));
            assert(r.0.subrange(0, 19)[0] == r.0[0]);
            assert(r.0[0] == 'f');
            if has_prefix(r.0, r"cond_stage_model\.transformer\.text_model\."@) {
                assert(r.0.subrange(0, 43)[0] == r.0[0]);
            }
        } else if i < c + a + u {
            let r = spec_unet_rules()[i - c - a];
            assert(sd[i] == r);
            assert(starts_outside_clip_and_first_stage(spec_unet_rules()[i - c - a].0));
            if has_prefix(r.0, r"cond_stage_model\.transformer\.text_model\."@) {
                assert(r.0.subrange(0, 43)[0] == r.0[0]);
            }
            if has_prefix(r.0, r"first_stage_model\."@) {
                assert(r.0.subrange(0, 19)[0] == r.0[0]);
            }
        } else {
            assert(sd[i] == spec_alphas_rule());
            assert("alphas_cumprod"@[0] == 'a');
            if has_prefix(sd[i].0, r"cond_stage_model\.transformer\.text_model\."@) {
                assert(sd[i].0.subrange(0, 43)[0] == sd[i].0[0]);
            }
            if has_prefix(sd[i].0, r"first_stage_model\."@) {
                assert(sd[i].0.subrange(0, 19)[0] == sd[i].0[0]);
            }
        }
    }
}

} // verus!
