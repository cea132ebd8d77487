use rustracer::api::{
    accelerator_decision, area_light_is_diffuse, filter_kind, float_texture_kind, integrator_kind,
    light_kind, material_kind, sampler_is_low_discrepancy, shape_decision,
    spectrum_texture_decision, texture_data_kind, AcceleratorDecision, FilterKind,
    FloatTextureKind, IntegratorKind, LightKind, MaterialKind, ShapeDecision, ShapeKind,
    SpectrumTextureDecision, SpectrumTextureKind, TextureDataKind,
};

#[test]
fn filters_by_name() {
    assert_eq!(filter_kind(&"box".to_owned()), Some(FilterKind::Box));
    assert_eq!(filter_kind(&"mitchell".to_owned()), Some(FilterKind::Mitchell));
    assert_eq!(filter_kind(&"gaussian".to_owned()), Some(FilterKind::Gaussian));
    assert_eq!(filter_kind(&"triangle".to_owned()), Some(FilterKind::Triangle));
    assert_eq!(filter_kind(&"sinc".to_owned()), None);
}

#[test]
fn integrators_by_name() {
    assert_eq!(integrator_kind(&"whitted".to_owned()), Some(IntegratorKind::Whitted));
    assert_eq!(
        integrator_kind(&"directlighting".to_owned()),
        Some(IntegratorKind::DirectLighting)
    );
    assert_eq!(integrator_kind(&"path".to_owned()), Some(IntegratorKind::Path));
    assert_eq!(integrator_kind(&"normal".to_owned()), Some(IntegratorKind::Normal));
    assert_eq!(integrator_kind(&"bdpt".to_owned()), None);
}

#[test]
fn samplers_by_name() {
    assert!(sampler_is_low_discrepancy(&"lowdiscrepancy".to_owned()));
    assert!(sampler_is_low_discrepancy(&"02sequence".to_owned()));
    assert!(!sampler_is_low_discrepancy(&"halton".to_owned()));
}

#[test]
fn materials_fall_back_to_matte() {
    assert_eq!(material_kind(&"matte".to_owned()), (MaterialKind::Matte, true));
    assert_eq!(material_kind(&"plastic".to_owned()), (MaterialKind::Plastic, true));
    assert_eq!(material_kind(&"glass".to_owned()), (MaterialKind::Glass, true));
    assert_eq!(material_kind(&"mirror".to_owned()), (MaterialKind::Mirror, true));
    assert_eq!(material_kind(&"metal".to_owned()), (MaterialKind::Metal, true));
    assert_eq!(material_kind(&"substrate".to_owned()), (MaterialKind::Substrate, true));
    assert_eq!(
        material_kind(&"translucent".to_owned()),
        (MaterialKind::Translucent, true)
    );
    assert_eq!(material_kind(&"uber".to_owned()), (MaterialKind::Uber, true));
    assert_eq!(material_kind(&"disney".to_owned()), (MaterialKind::Disney, true));
    // an unknown material becomes matte, and the flag lets the driver warn
    assert_eq!(material_kind(&"chrome".to_owned()), (MaterialKind::Matte, false));
}

#[test]
fn lights_by_name() {
    assert_eq!(light_kind(&"point".to_owned()), Some(LightKind::Point));
    assert_eq!(light_kind(&"distant".to_owned()), Some(LightKind::Distant));
    assert_eq!(light_kind(&"infinite".to_owned()), Some(LightKind::Infinite));
    assert_eq!(light_kind(&"spot".to_owned()), None);

    assert!(area_light_is_diffuse(&"area".to_owned()));
    assert!(area_light_is_diffuse(&"diffuse".to_owned()));
    assert!(!area_light_is_diffuse(&"projection".to_owned()));
}

#[test]
fn shapes_by_name() {
    assert_eq!(
        shape_decision(&"sphere".to_owned()),
        ShapeDecision::Supported(ShapeKind::Sphere)
    );
    assert_eq!(
        shape_decision(&"cylinder".to_owned()),
        ShapeDecision::Supported(ShapeKind::Cylinder)
    );
    assert_eq!(shape_decision(&"disk".to_owned()), ShapeDecision::Supported(ShapeKind::Disk));
    assert_eq!(
        shape_decision(&"trianglemesh".to_owned()),
        ShapeDecision::Supported(ShapeKind::TriangleMesh)
    );
    assert_eq!(
        shape_decision(&"plymesh".to_owned()),
        ShapeDecision::Supported(ShapeKind::PlyMesh)
    );
    assert_eq!(shape_decision(&"cone".to_owned()), ShapeDecision::Unsupported);
    assert_eq!(shape_decision(&"paraboloid".to_owned()), ShapeDecision::Unsupported);
    assert_eq!(shape_decision(&"hyperboloid".to_owned()), ShapeDecision::Unsupported);
    assert_eq!(shape_decision(&"curve".to_owned()), ShapeDecision::Unsupported);
    assert_eq!(shape_decision(&"blob".to_owned()), ShapeDecision::Unknown);
}

#[test]
fn accelerators_by_name() {
    assert_eq!(accelerator_decision(&"bvh".to_owned()), AcceleratorDecision::Bvh);
    assert_eq!(accelerator_decision(&"kdtree".to_owned()), AcceleratorDecision::KdTree);
    assert_eq!(accelerator_decision(&"grid".to_owned()), AcceleratorDecision::Unknown);
}

#[test]
fn textures_by_name() {
    assert_eq!(
        float_texture_kind(&"constant".to_owned()),
        Some(FloatTextureKind::Constant)
    );
    assert_eq!(float_texture_kind(&"scale".to_owned()), Some(FloatTextureKind::Scale));
    assert_eq!(
        float_texture_kind(&"imagemap".to_owned()),
        Some(FloatTextureKind::ImageMap)
    );
    assert_eq!(float_texture_kind(&"fbm".to_owned()), Some(FloatTextureKind::Fbm));
    assert_eq!(float_texture_kind(&"marble".to_owned()), None);

    assert_eq!(
        spectrum_texture_decision(&"constant".to_owned()),
        SpectrumTextureDecision::Supported(SpectrumTextureKind::Constant)
    );
    assert_eq!(
        spectrum_texture_decision(&"uv".to_owned()),
        SpectrumTextureDecision::Supported(SpectrumTextureKind::Uv)
    );
    assert_eq!(
        spectrum_texture_decision(&"checkerboard".to_owned()),
        SpectrumTextureDecision::Supported(SpectrumTextureKind::Checkerboard)
    );
    assert_eq!(
        spectrum_texture_decision(&"fbm".to_owned()),
        SpectrumTextureDecision::Supported(SpectrumTextureKind::Fbm)
    );
    for unimplemented_name in ["mix", "bilerp", "dots", "wrinkled", "marble", "windy", "ptex"] {
        assert_eq!(
            spectrum_texture_decision(&unimplemented_name.to_owned()),
            SpectrumTextureDecision::Unsupported
        );
    }
    assert_eq!(
        spectrum_texture_decision(&"granite".to_owned()),
        SpectrumTextureDecision::Unknown
    );
}

#[test]
fn texture_type_strings() {
    assert_eq!(texture_data_kind(&"float".to_owned()), Some(TextureDataKind::Float));
    assert_eq!(texture_data_kind(&"color".to_owned()), Some(TextureDataKind::Spectrum));
    assert_eq!(texture_data_kind(&"spectrum".to_owned()), Some(TextureDataKind::Spectrum));
    assert_eq!(texture_data_kind(&"vector".to_owned()), None);
}
