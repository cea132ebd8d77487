use rustracer::bsdf::{
    lobe_participates, matching_lobe, num_matching_lobes, BxDFType, BSDF_DIFFUSE, BSDF_GLOSSY,
    BSDF_REFLECTION, BSDF_SPECULAR, BSDF_TRANSMISSION,
};
use rustracer::integrator::{DirectLightingIntegrator, LightStrategy};
use rustracer::display::{DisplayUpdater, NoopDisplayUpdater, PixelBuffer};
use rustracer::primitive::TransportMode;

#[test]
fn flag_algebra() {
    let lambertian = BxDFType::new(BSDF_REFLECTION | BSDF_DIFFUSE);
    let specular_reflection = BxDFType::new(BSDF_SPECULAR | BSDF_REFLECTION);
    let all = BxDFType::new(
        BSDF_REFLECTION | BSDF_TRANSMISSION | BSDF_DIFFUSE | BSDF_GLOSSY | BSDF_SPECULAR,
    );
    let empty = BxDFType::empty();

    assert!(lambertian.contains(BxDFType::new(BSDF_REFLECTION)));
    assert!(!lambertian.contains(BxDFType::new(BSDF_SPECULAR)));
    assert!(lambertian.matches(all));
    assert!(!all.matches(lambertian));
    assert!(empty.matches(lambertian));
    assert!(lobe_participates(lambertian, all, true));
    assert!(!lobe_participates(lambertian, all, false));
    assert!(!lobe_participates(specular_reflection, lambertian, true));
    let transmission = BxDFType::new(BSDF_SPECULAR | BSDF_TRANSMISSION);
    assert!(lobe_participates(transmission, all, false));
    assert!(!lobe_participates(transmission, all, true));

    let both = lambertian.union(specular_reflection);
    assert_eq!(both.bits, BSDF_REFLECTION | BSDF_DIFFUSE | BSDF_SPECULAR);
    assert!(both.contains(lambertian));
    assert!(both.contains(specular_reflection));
}

#[test]
fn direct_lighting_integrator_defaults() {
    let i = DirectLightingIntegrator::new(8);
    assert_eq!(i.max_ray_depth, 8);
    assert!(matches!(i.light_strategy, LightStrategy::UniformSampleOne));
}

#[test]
fn noop_display_ignores_the_film() {
    let mut updater = NoopDisplayUpdater;
    let film = PixelBuffer { width: 2, height: 1, rgb: vec![0, 0, 0, 255, 255, 255] };
    updater.update(&film);
    assert_eq!(film.rgb.len(), 6);
    let mode = TransportMode::Radiance;
    assert!(matches!(mode, TransportMode::Radiance));
    assert!(!matches!(TransportMode::Importance, TransportMode::Radiance));
}

#[test]
fn lobe_counting_and_selection() {
    let diffuse = BxDFType::new(BSDF_REFLECTION | BSDF_DIFFUSE);
    let mirror = BxDFType::new(BSDF_SPECULAR | BSDF_REFLECTION);
    let glass = BxDFType::new(BSDF_SPECULAR | BSDF_TRANSMISSION);
    let lobes = vec![diffuse, mirror, glass];

    let all = BxDFType::new(
        BSDF_REFLECTION | BSDF_TRANSMISSION | BSDF_DIFFUSE | BSDF_GLOSSY | BSDF_SPECULAR,
    );
    assert_eq!(num_matching_lobes(&lobes, all), 3);

    let reflective = BxDFType::new(BSDF_REFLECTION | BSDF_DIFFUSE | BSDF_SPECULAR);
    assert_eq!(num_matching_lobes(&lobes, reflective), 2);

    let transmissive = BxDFType::new(BSDF_TRANSMISSION | BSDF_SPECULAR);
    assert_eq!(num_matching_lobes(&lobes, transmissive), 1);

    // a request nothing answers: the sampler returns a zero sample
    let glossy_only = BxDFType::new(BSDF_GLOSSY);
    assert_eq!(num_matching_lobes(&lobes, glossy_only), 0);

    // the k-th matching lobe, skipping lobes the flags rule out
    assert_eq!(matching_lobe(&lobes, reflective, 0), Some(0));
    assert_eq!(matching_lobe(&lobes, reflective, 1), Some(1));
    assert_eq!(matching_lobe(&lobes, reflective, 2), None);
    assert_eq!(matching_lobe(&lobes, transmissive, 0), Some(2));
    assert_eq!(matching_lobe(&lobes, glossy_only, 0), None);
}
