# stablediffusion

The decision logic of a Stable Diffusion pipeline built on burn, verified with Verus.

- `src/remap_rules.rs`: the tables that rename checkpoint tensors (U-Net, autoencoder, CLIP),
  the full rule list of a checkpoint, and the import remappings.
- `src/remapper.rs`: compiling a rule list into a `burn_store::KeyRemapper`, and the names it gives to tensors.
- `src/schedule.rs`: the timesteps the deterministic sampler visits and the alpha entries it reads.
- `src/image_layout.rs`: cutting a decoded batch into one buffer per image.
- `src/names.rs`: the prompt text, the paths of a dump's parts, the image file names.
- `src/checkpoint.rs`: which checkpoint tensors go to the encoder layers.
- `src/cli.rs`: the programs' arguments, device and model-format selection.
- `src/config.rs`: model configurations.
- `app/`: argument reading, tensor stores, tensor arithmetic and image writing around the library.
