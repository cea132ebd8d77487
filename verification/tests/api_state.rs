use rustracer::api::{ApiError, ApiState, Array, ParamListEntry, ParamType, State};

#[test]
fn verify_functions_follow_the_block() {
    assert!(ApiState::Uninitialized.verify_uninitialized().is_ok());
    assert_eq!(
        ApiState::OptionsBlock.verify_uninitialized(),
        Err(ApiError::AlreadyInitialized)
    );
    assert_eq!(
        ApiState::Uninitialized.verify_initialized(),
        Err(ApiError::NotInitialized)
    );
    assert!(ApiState::WorldBlock.verify_initialized().is_ok());
    assert!(ApiState::OptionsBlock.verify_options().is_ok());
    assert_eq!(
        ApiState::WorldBlock.verify_options(),
        Err(ApiError::OptionsInWorldBlock)
    );
    assert_eq!(
        ApiState::OptionsBlock.verify_world(),
        Err(ApiError::WorldOutsideWorldBlock)
    );
    assert!(ApiState::WorldBlock.verify_world().is_ok());
    assert_eq!(ApiState::default(), ApiState::Uninitialized);
}

#[test]
fn error_messages_match_the_driver_log() {
    assert_eq!(
        ApiError::AlreadyInitialized.message(),
        "Api::init() has already been called!"
    );
    assert_eq!(
        ApiError::NotInitialized.message(),
        "Api::init() has not been called!"
    );
    assert_eq!(
        ApiError::OptionsInWorldBlock.message(),
        "Options cannot be set inside world block."
    );
    assert_eq!(
        ApiError::WorldOutsideWorldBlock.message(),
        "Scene description must be inside world block."
    );
}

#[test]
fn directive_state_machine() {
    // payloads stand in for the graphics state and the transform
    let mut st: State<u32, u64> = State::new();
    assert_eq!(st.api_state, ApiState::Uninitialized);

    // world directives are rejected before init
    assert_eq!(st.world_begin(), Err(ApiError::NotInitialized));
    assert_eq!(st.attribute_begin(1, 2), Err(ApiError::NotInitialized));

    assert!(st.init().is_ok());
    assert_eq!(st.api_state, ApiState::OptionsBlock);
    assert_eq!(st.init(), Err(ApiError::AlreadyInitialized));

    // world directives are rejected in the options block
    assert_eq!(st.attribute_begin(1, 2), Err(ApiError::WorldOutsideWorldBlock));

    assert!(st.world_begin().is_ok());
    assert_eq!(st.api_state, ApiState::WorldBlock);

    // attribute and transform saves restore in last-in-first-out order
    assert!(st.attribute_begin(10, 100).is_ok());
    assert!(st.attribute_begin(20, 200).is_ok());
    assert!(st.transform_begin(300).is_ok());
    assert_eq!(st.transform_end(), Ok(Some(300)));
    assert_eq!(st.attribute_end(), Ok(Some((20, 200))));
    assert_eq!(st.attribute_end(), Ok(Some((10, 100))));

    // unmatched ends are ignored, not errors
    assert_eq!(st.attribute_end(), Ok(None));
    assert_eq!(st.transform_end(), Ok(None));
}

#[test]
fn object_definitions_bracket() {
    let mut st: State<u32, u64> = State::new();
    assert!(st.init().is_ok());
    assert!(st.world_begin().is_ok());

    assert_eq!(st.object_end(), Err(ApiError::ObjectEndOutsideInstance));

    assert!(st.object_begin("tree".to_owned(), 7, 70).is_ok());
    assert_eq!(st.current_instance, Some("tree".to_owned()));

    // a nested definition is rejected, though its attribute save went through
    assert_eq!(
        st.object_begin("bush".to_owned(), 8, 80),
        Err(ApiError::ObjectBeginInsideInstance)
    );
    assert_eq!(st.pushed_graphics_states.len(), 2);

    assert_eq!(
        st.object_instance_check(),
        Err(ApiError::ObjectInstanceInsideInstance)
    );

    assert_eq!(st.object_end(), Ok(Some((8, 80))));
    assert_eq!(st.current_instance, None);
    assert!(st.object_instance_check().is_ok());
}

#[test]
fn world_end_drops_leftover_saves() {
    let mut st: State<u32, u64> = State::new();
    assert_eq!(st.world_end(), Err(ApiError::NotInitialized));
    assert!(st.init().is_ok());
    assert!(st.world_begin().is_ok());
    assert!(st.attribute_begin(1, 10).is_ok());
    assert!(st.attribute_begin(2, 20).is_ok());
    assert!(st.transform_begin(30).is_ok());
    assert_eq!(st.world_end(), Ok((2, 3)));
    assert_eq!(st.pushed_graphics_states.len(), 0);
    assert_eq!(st.pushed_transforms.len(), 0);
    assert_eq!(st.api_state, ApiState::Uninitialized);
}

#[test]
fn arrays_yield_their_own_kind() {
    let nums: Array<f32> = Array::NumArray(vec![1.0, 2.5]);
    assert_eq!(nums.as_num_array(), vec![1.0, 2.5]);
    assert!(nums.as_str_array().is_empty());
    assert!(nums.as_int_array().is_empty());

    let words: Array<f32> = Array::StrArray(vec!["a".to_owned(), "b".to_owned()]);
    assert_eq!(words.as_str_array(), vec!["a".to_owned(), "b".to_owned()]);
    assert!(words.as_num_array().is_empty());

    let ints: Array<f32> = Array::IntArray(vec![3, -4]);
    assert_eq!(ints.as_int_array(), vec![3, -4]);
    assert!(ints.as_num_array().is_empty());

    let e = ParamListEntry::new(
        ParamType::Float,
        "radius".to_owned(),
        Array::<f32>::NumArray(vec![2.0]),
    );
    assert_eq!(e.param_type, ParamType::Float);
    assert_eq!(e.param_name, "radius".to_owned());
}

#[test]
fn render_options_defaults() {
    let opts: rustracer::api::RenderOptions<f32> = rustracer::api::RenderOptions::new();
    assert_eq!(opts.film_name, "image".to_owned());
    assert_eq!(opts.filter_name, "box".to_owned());
    assert_eq!(opts.sampler_name, "halton".to_owned());
    assert_eq!(opts.accelerator_name, "bvh".to_owned());
    assert_eq!(opts.integrator_name, "path".to_owned());
    assert_eq!(opts.camera_name, "perspective".to_owned());
    // the default sampler name is rejected by the sampler dispatch
    assert!(!rustracer::api::sampler_is_low_discrepancy(&opts.sampler_name));
    assert!(opts.film_params.floats.is_empty());
}
