use stablediffusion::schedule::{sampling_schedule, DiffusionStep, TRAIN_TIMESTEPS};

fn timesteps(n: usize) -> Vec<usize> {
    sampling_schedule(n).iter().map(|s| s.timestep).collect()
}

#[test]
fn twenty_steps() {
    let steps = sampling_schedule(20);
    assert_eq!(steps.len(), 20);
    assert_eq!(steps[0], DiffusionStep { timestep: 999, previous: Some(949) });
    assert_eq!(steps[18], DiffusionStep { timestep: 99, previous: Some(49) });
    assert_eq!(steps[19], DiffusionStep { timestep: 49, previous: None });
}

#[test]
fn three_steps_are_three_denoising_steps() {
    assert_eq!(timesteps(3), vec![999, 666, 333]);
    let steps = sampling_schedule(3);
    assert_eq!(steps[0].previous, Some(666));
    assert_eq!(steps[1].previous, Some(333));
    assert_eq!(steps[2].previous, None);
}

#[test]
fn single_step() {
    assert_eq!(
        sampling_schedule(1),
        vec![DiffusionStep { timestep: 999, previous: None }]
    );
}

#[test]
fn every_trained_timestep() {
    let steps = sampling_schedule(TRAIN_TIMESTEPS);
    assert_eq!(steps.len(), 1000);
    assert_eq!(steps[999], DiffusionStep { timestep: 0, previous: None });
    assert_eq!(steps[500], DiffusionStep { timestep: 499, previous: Some(498) });
}

#[test]
fn requested_count_of_evenly_spaced_steps() {
    for n in [1usize, 2, 3, 7, 20, 30, 50, 333, 999, 1000] {
        let step = 1000 / n;
        let expected: Vec<usize> = (0..1000).rev().step_by(step).take(n).collect();
        assert_eq!(timesteps(n), expected);
        let steps = sampling_schedule(n);
        assert_eq!(steps.len(), n);
        for (i, s) in steps.iter().enumerate() {
            if i + 1 < steps.len() {
                assert_eq!(s.previous, Some(steps[i + 1].timestep));
                assert_eq!(s.timestep - step, steps[i + 1].timestep);
            } else {
                assert_eq!(s.previous, None);
            }
        }
    }
}
