use rustracer::api::{Array, ParamListEntry, ParamType};
use rustracer::paramset::{
    texture_params_fallback_float, texture_params_fallback_spectrum, texture_params_find_bool,
    texture_params_find_string, texture_params_texture_name, Pair, ParamSet, ParamSetItem, Triple,
};

fn entry(t: ParamType, name: &str, values: Array<f32>) -> ParamListEntry<f32> {
    ParamListEntry::new(t, name.to_owned(), values)
}

#[test]
fn init_files_entries_into_their_tables() {
    let mut ps: ParamSet<f32> = ParamSet::new();
    ps.init(vec![
        entry(ParamType::Float, "radius", Array::NumArray(vec![2.5, 9.0])),
        entry(
            ParamType::Bool,
            "reverseorientation",
            Array::StrArray(vec!["true".to_owned(), "false".to_owned(), "banana".to_owned()]),
        ),
        entry(ParamType::Int, "nsamples", Array::IntArray(vec![16, 4])),
        entry(ParamType::String, "filename", Array::StrArray(vec!["out.png".to_owned()])),
        entry(ParamType::Rgb, "Kd", Array::NumArray(vec![0.5, 0.25, 0.125, 1.0])),
        entry(ParamType::Point2, "uv", Array::NumArray(vec![0.0, 1.0, 2.0, 3.0, 4.0])),
        entry(ParamType::Point3, "P", Array::NumArray(vec![1.0, 2.0, 3.0])),
        entry(ParamType::Vector3, "dir", Array::NumArray(vec![0.0, -1.0, 0.0])),
    ]);

    assert_eq!(ps.find_one_float(&"radius".to_owned(), 1.0), 2.5);
    assert_eq!(ps.find_bool(&"reverseorientation".to_owned()), Some(vec![true, false, false]));
    assert_eq!(ps.find_one_int(&"nsamples".to_owned(), 8), 16);
    assert_eq!(ps.find_one_string(&"filename".to_owned(), String::new()), "out.png".to_owned());
    // an incomplete colour triple at the tail is dropped
    assert_eq!(
        ps.find_spectrum(&"Kd".to_owned()),
        Some(vec![Triple { x: 0.5, y: 0.25, z: 0.125 }])
    );
    // five numbers give two full 2D points
    assert_eq!(
        ps.find_point2f(&"uv".to_owned()),
        Some(vec![Pair { x: 0.0, y: 1.0 }, Pair { x: 2.0, y: 3.0 }])
    );
    assert_eq!(
        ps.find_one_point3f(
            &"P".to_owned(),
            Triple { x: 0.0, y: 0.0, z: 0.0 },
        ),
        Triple { x: 1.0, y: 2.0, z: 3.0 }
    );
    assert_eq!(
        ps.find_vector3f(&"dir".to_owned()),
        Some(vec![Triple { x: 0.0, y: -1.0, z: 0.0 }])
    );
}

#[test]
fn find_defaults_and_marking() {
    let mut ps: ParamSet<f32> = ParamSet::new();
    ps.init(vec![
        entry(ParamType::Float, "radius", Array::NumArray(vec![2.5])),
        // a numeric entry delivered where strings were expected holds no values
        entry(ParamType::String, "empty", Array::NumArray(vec![1.0])),
    ]);

    // a missing name yields the default and no marking
    assert_eq!(ps.find_one_float(&"sigma".to_owned(), 0.25), 0.25);
    assert_eq!(ps.find_float(&"sigma".to_owned()), None);

    // an entry without values yields the default
    assert_eq!(ps.find_one_string(&"empty".to_owned(), "d".to_owned()), "d".to_owned());

    assert!(!ps.floats[0].looked_up);
    assert_eq!(ps.find_one_float(&"radius".to_owned(), 1.0), 2.5);
    assert!(ps.floats[0].looked_up);
}

#[test]
fn first_entry_with_a_name_wins() {
    let mut ps: ParamSet<f32> = ParamSet::new();
    ps.init(vec![
        entry(ParamType::Float, "k", Array::NumArray(vec![1.0])),
        entry(ParamType::Float, "k", Array::NumArray(vec![2.0])),
    ]);
    assert_eq!(ps.find_one_float(&"k".to_owned(), 0.0), 1.0);
    assert!(ps.floats[0].looked_up);
    assert!(!ps.floats[1].looked_up);
}

#[test]
fn texture_params_prefer_the_geometry() {
    let mut geom: ParamSet<f32> = ParamSet::new();
    geom.init(vec![
        entry(ParamType::Bool, "remaproughness", Array::StrArray(vec!["true".to_owned()])),
        entry(ParamType::String, "type", Array::StrArray(vec!["matte".to_owned()])),
        entry(ParamType::Float, "sigma", Array::NumArray(vec![0.5])),
    ]);
    let mut material: ParamSet<f32> = ParamSet::new();
    material.init(vec![
        entry(ParamType::Bool, "remaproughness", Array::StrArray(vec!["false".to_owned()])),
        entry(ParamType::Rgb, "Kd", Array::NumArray(vec![0.25, 0.5, 0.75])),
    ]);

    assert!(texture_params_find_bool(&mut geom, &mut material, &"remaproughness".to_owned(), false));
    assert_eq!(
        texture_params_find_string(&mut geom, &mut material, &"type".to_owned()),
        "matte".to_owned()
    );
    // the geometry has no such colour, so the material's wins over the default
    assert_eq!(
        texture_params_fallback_spectrum(
            &mut geom,
            &mut material,
            &"Kd".to_owned(),
            Triple { x: 1.0, y: 1.0, z: 1.0 },
        ),
        Triple { x: 0.25, y: 0.5, z: 0.75 }
    );
    assert_eq!(
        texture_params_fallback_float(&mut geom, &mut material, &"sigma".to_owned(), 0.0),
        0.5
    );
    assert_eq!(
        texture_params_fallback_float(&mut geom, &mut material, &"bumpmap".to_owned(), 0.125),
        0.125
    );
}

#[test]
fn texture_names_resolve_geometry_first() {
    let mut geom: ParamSet<f32> = ParamSet::new();
    let mut material: ParamSet<f32> = ParamSet::new();
    // neither side names a texture: empty, and the caller falls back
    assert_eq!(
        texture_params_texture_name(&mut geom, &mut material, &"Kd".to_owned()),
        String::new()
    );

    material.textures.push(ParamSetItem {
        name: "Kd".to_owned(),
        values: vec!["mtex".to_owned()],
        looked_up: false,
    });
    assert_eq!(
        texture_params_texture_name(&mut geom, &mut material, &"Kd".to_owned()),
        "mtex".to_owned()
    );

    geom.textures.push(ParamSetItem {
        name: "Kd".to_owned(),
        values: vec!["gtex".to_owned()],
        looked_up: false,
    });
    assert_eq!(
        texture_params_texture_name(&mut geom, &mut material, &"Kd".to_owned()),
        "gtex".to_owned()
    );
}
