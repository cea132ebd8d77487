//! The scene-description state machine.
//!
//! A scene arrives as a sequence of directives in two blocks: an options
//! block and a world block. This module verifies the control decisions:
//! which directives are legal in which block, the save/restore discipline
//! of the attribute and transform stacks, the object-instance bracketing,
//! and the classification of the names a directive carries (shapes,
//! materials, lights, filters, textures, integrators, samplers,
//! accelerators). Building the actual transforms, shapes and materials is
//! floating-point work and stays with the driver around the library, which
//! hands the state machine the payloads to keep and gets them back on
//! restore.

use vstd::prelude::*;

verus! {

/// Where the description currently stands: directives are only legal in
/// certain blocks.
#[derive(Debug, Copy, Clone, PartialEq, Eq, Structural)]
pub enum ApiState {
    Uninitialized,
    OptionsBlock,
    WorldBlock,
}

/// A directive arrived in a block where it is not legal.
#[derive(Debug, Copy, Clone, PartialEq, Eq, Structural)]
pub enum ApiError {
    /// `init` was called twice.
    AlreadyInitialized,
    /// A directive arrived before `init`.
    NotInitialized,
    /// An options directive arrived inside the world block.
    OptionsInWorldBlock,
    /// A world directive arrived outside the world block.
    WorldOutsideWorldBlock,
    /// An object definition was opened inside another object definition.
    ObjectBeginInsideInstance,
    /// An object definition was closed while none was open.
    ObjectEndOutsideInstance,
    /// An object was instantiated inside an object definition.
    ObjectInstanceInsideInstance,
}

impl ApiError {
    /// The message the driver logs for this error.
    pub fn message(&self) -> (r: String)
        ensures
            self == ApiError::AlreadyInitialized ==> r@ == "Api::init() has already been called!"@,
            self == ApiError::NotInitialized ==> r@ == "Api::init() has not been called!"@,
            self == ApiError::OptionsInWorldBlock ==> r@
                == "Options cannot be set inside world block."@,
            self == ApiError::WorldOutsideWorldBlock ==> r@
                == "Scene description must be inside world block."@,
            self == ApiError::ObjectBeginInsideInstance ==> r@
                == "ObjectBegin called inside of instance definition"@,
            self == ApiError::ObjectEndOutsideInstance ==> r@
                == "ObjectEnd called outside of instance definition"@,
            self == ApiError::ObjectInstanceInsideInstance ==> r@
                == "ObjectInstance called inside of instance definition"@,
    {
        match self {
            ApiError::AlreadyInitialized => "Api::init() has already been called!".to_owned(),
            ApiError::NotInitialized => "Api::init() has not been called!".to_owned(),
            ApiError::OptionsInWorldBlock => "Options cannot be set inside world block.".to_owned(),
            ApiError::WorldOutsideWorldBlock => "Scene description must be inside world block.".to_owned(),
            ApiError::ObjectBeginInsideInstance => "ObjectBegin called inside of instance definition".to_owned(),
            ApiError::ObjectEndOutsideInstance => "ObjectEnd called outside of instance definition".to_owned(),
            ApiError::ObjectInstanceInsideInstance => "ObjectInstance called inside of instance definition".to_owned(),
        }
    }
}

impl ApiState {
    /// The error an options directive draws in this block, when it draws one.
    pub open spec fn spec_options_error(self) -> ApiError {
        if self == ApiState::Uninitialized {
            ApiError::NotInitialized
        } else {
            ApiError::OptionsInWorldBlock
        }
    }

    /// The error a world directive draws in this block, when it draws one.
    pub open spec fn spec_world_error(self) -> ApiError {
        if self == ApiState::Uninitialized {
            ApiError::NotInitialized
        } else {
            ApiError::WorldOutsideWorldBlock
        }
    }

    /// Succeeds exactly when `init` has not been called yet.
    pub fn verify_uninitialized(&self) -> (r: Result<(), ApiError>)
        ensures
            r is Ok <==> self == ApiState::Uninitialized,
            r is Err ==> r == Err::<(), ApiError>(ApiError::AlreadyInitialized),
    {
        match self {
            ApiState::Uninitialized => Ok(()),
            _ => Err(ApiError::AlreadyInitialized),
        }
    }

    /// Succeeds exactly when `init` has been called.
    pub fn verify_initialized(&self) -> (r: Result<(), ApiError>)
        ensures
            r is Ok <==> self != ApiState::Uninitialized,
            r is Err ==> r == Err::<(), ApiError>(ApiError::NotInitialized),
    {
        match self {
            ApiState::Uninitialized => Err(ApiError::NotInitialized),
            _ => Ok(()),
        }
    }

    /// Succeeds exactly in the options block.
    pub fn verify_options(&self) -> (r: Result<(), ApiError>)
        ensures
            r is Ok <==> self == ApiState::OptionsBlock,
            self == ApiState::Uninitialized ==> r == Err::<(), ApiError>(ApiError::NotInitialized),
            self == ApiState::WorldBlock ==> r == Err::<(), ApiError>(
                ApiError::OptionsInWorldBlock,
            ),
    {
        self.verify_initialized()?;
        match self {
            ApiState::WorldBlock => Err(ApiError::OptionsInWorldBlock),
            _ => Ok(()),
        }
    }

    /// Succeeds exactly in the world block.
    pub fn verify_world(&self) -> (r: Result<(), ApiError>)
        ensures
            r is Ok <==> self == ApiState::WorldBlock,
            self == ApiState::Uninitialized ==> r == Err::<(), ApiError>(ApiError::NotInitialized),
            self == ApiState::OptionsBlock ==> r == Err::<(), ApiError>(
                ApiError::WorldOutsideWorldBlock,
            ),
    {
        self.verify_initialized()?;
        match self {
            ApiState::OptionsBlock => Err(ApiError::WorldOutsideWorldBlock),
            _ => Ok(()),
        }
    }
}

impl Default for ApiState {
    fn default() -> (r: Self)
        ensures
            r == ApiState::Uninitialized,
    {
        ApiState::Uninitialized
    }
}

/// The type tag of a parameter list entry.
#[derive(Debug, Copy, Clone, PartialEq, Eq, Structural)]
pub enum ParamType {
    Int,
    Bool,
    Float,
    Point2,
    Vector2,
    Point3,
    Vector3,
    Normal,
    Rgb,
    Xyz,
    Blackbody,
    Spectrum,
    String,
    Texture,
}

/// The values of one parameter list entry. The scalar type is the driver's
/// floating-point number, which this library stores and hands back without
/// looking inside; integer parameter lists arrive already narrowed by the
/// reader of the scene file.
#[derive(Debug, PartialEq)]
pub enum Array<N> {
    NumArray(Vec<N>),
    IntArray(Vec<i32>),
    StrArray(Vec<String>),
}

impl<N: Copy> Array<N> {
    /// The numeric values, or an empty list when the entry holds another
    /// kind; the driver logs a warning in that case.
    pub fn as_num_array(&self) -> (r: Vec<N>)
        ensures
            self is NumArray ==> r@ == self->NumArray_0@,
            !(self is NumArray) ==> r@.len() == 0,
    {
        match self {
            Array::NumArray(a) => clone_scalars(a),
            _ => Vec::new(),
        }
    }

    /// The integer values, or an empty list when the entry holds another kind.
    pub fn as_int_array(&self) -> (r: Vec<i32>)
        ensures
            self is IntArray ==> r@ == self->IntArray_0@,
            !(self is IntArray) ==> r@.len() == 0,
    {
        match self {
            Array::IntArray(a) => clone_scalars(a),
            _ => Vec::new(),
        }
    }

    /// The string values, or an empty list when the entry holds another kind.
    pub fn as_str_array(&self) -> (r: Vec<String>)
        ensures
            self is StrArray ==> r@ == self->StrArray_0@,
            !(self is StrArray) ==> r@.len() == 0,
    {
        match self {
            Array::StrArray(a) => clone_strings(a),
            _ => Vec::new(),
        }
    }
}

/// Copies a list of scalar values.
pub fn clone_scalars<T: Copy>(v: &Vec<T>) -> (r: Vec<T>)
    ensures
        r@ == v@,
{
    let mut r: Vec<T> = Vec::new();
    let mut i: usize = 0;
    while i < v.len()
        invariant
            i <= v.len(),
            r@ == v@.take(i as int),
        decreases v.len() - i,
    {
        r.push(v[i]);
        i = i + 1;
        assert(r@ == v@.take(i as int));
    }
    assert(v@.take(v@.len() as int) == v@);
    r
}

/// Copies a list of strings.
pub fn clone_strings(v: &Vec<String>) -> (r: Vec<String>)
    ensures
        r@ == v@,
{
    let mut r: Vec<String> = Vec::new();
    let mut i: usize = 0;
    while i < v.len()
        invariant
            i <= v.len(),
            r@ == v@.take(i as int),
        decreases v.len() - i,
    {
        r.push(v[i].clone());
        i = i + 1;
        assert(r@ == v@.take(i as int));
    }
    assert(v@.take(v@.len() as int) == v@);
    r
}

/// One entry of a directive's parameter list.
#[derive(Debug)]
pub struct ParamListEntry<N> {
    pub param_type: ParamType,
    pub param_name: String,
    pub values: Array<N>,
}

impl<N> ParamListEntry<N> {
    pub fn new(t: ParamType, name: String, values: Array<N>) -> (e: ParamListEntry<N>)
        ensures
            e.param_type == t,
            e.param_name == name,
            e.values == values,
    {
        ParamListEntry { param_type: t, param_name: name, values }
    }
}

/// The mutable state of the scene description: the current block, the
/// saved attribute and transform payloads, and the name of the object
/// definition currently open. The graphics-state and transform payloads
/// are the driver's own types; the machine keeps them and hands them back
/// without looking inside.
pub struct State<G, T> {
    pub api_state: ApiState,
    pub pushed_graphics_states: Vec<G>,
    pub pushed_transforms: Vec<T>,
    pub current_instance: Option<String>,
}

impl<G, T> State<G, T> {
    pub fn new() -> (s: State<G, T>)
        ensures
            s.api_state == ApiState::Uninitialized,
            s.pushed_graphics_states@.len() == 0,
            s.pushed_transforms@.len() == 0,
            s.current_instance is None,
    {
        State {
            api_state: ApiState::Uninitialized,
            pushed_graphics_states: Vec::new(),
            pushed_transforms: Vec::new(),
            current_instance: None,
        }
    }

    /// Everything but the current block is as it was.
    pub open spec fn same_stacks(self, other: State<G, T>) -> bool {
        &&& self.pushed_graphics_states@ == other.pushed_graphics_states@
        &&& self.pushed_transforms@ == other.pushed_transforms@
        &&& self.current_instance == other.current_instance
    }

    /// Saves a copy of the current graphics state.
    pub fn save_graphics_state(&mut self, gs: G)
        ensures
            final(self).pushed_graphics_states@ == old(self).pushed_graphics_states@.push(gs),
            final(self).pushed_transforms@ == old(self).pushed_transforms@,
            final(self).api_state == old(self).api_state,
            final(self).current_instance == old(self).current_instance,
    {
        self.pushed_graphics_states.push(gs);
    }

    /// Saves a copy of the current transform.
    pub fn save_transform(&mut self, t: T)
        ensures
            final(self).pushed_transforms@ == old(self).pushed_transforms@.push(t),
            final(self).pushed_graphics_states@ == old(self).pushed_graphics_states@,
            final(self).api_state == old(self).api_state,
            final(self).current_instance == old(self).current_instance,
    {
        self.pushed_transforms.push(t);
    }

    /// Takes back the most recently saved graphics state.
    pub fn restore_graphics_state(&mut self) -> (g: G)
        requires
            old(self).pushed_graphics_states@.len() > 0,
        ensures
            g == old(self).pushed_graphics_states@.last(),
            final(self).pushed_graphics_states@ == old(self).pushed_graphics_states@.drop_last(),
            final(self).pushed_transforms@ == old(self).pushed_transforms@,
            final(self).api_state == old(self).api_state,
            final(self).current_instance == old(self).current_instance,
    {
        self.pushed_graphics_states.pop().unwrap()
    }

    /// Takes back the most recently saved transform.
    pub fn restore_transform(&mut self) -> (t: T)
        requires
            old(self).pushed_transforms@.len() > 0,
        ensures
            t == old(self).pushed_transforms@.last(),
            final(self).pushed_transforms@ == old(self).pushed_transforms@.drop_last(),
            final(self).pushed_graphics_states@ == old(self).pushed_graphics_states@,
            final(self).api_state == old(self).api_state,
            final(self).current_instance == old(self).current_instance,
    {
        self.pushed_transforms.pop().unwrap()
    }

    /// `init`: enters the options block, once.
    pub fn init(&mut self) -> (r: Result<(), ApiError>)
        ensures
            r is Ok <==> old(self).api_state == ApiState::Uninitialized,
            r is Ok ==> final(self).api_state == ApiState::OptionsBlock,
            r is Err ==> r == Err::<(), ApiError>(ApiError::AlreadyInitialized) && *final(self)
                == *old(self),
            final(self).same_stacks(*old(self)),
    {
        match self.api_state.verify_uninitialized() {
            Ok(_) => {
                self.api_state = ApiState::OptionsBlock;
                Ok(())
            },
            Err(e) => Err(e),
        }
    }

    /// `WorldBegin`: leaves the options block for the world block.
    pub fn world_begin(&mut self) -> (r: Result<(), ApiError>)
        ensures
            r is Ok <==> old(self).api_state == ApiState::OptionsBlock,
            r is Ok ==> final(self).api_state == ApiState::WorldBlock,
            r is Err ==> *final(self) == *old(self) && r == Err::<(), ApiError>(
                old(self).api_state.spec_options_error(),
            ),
            final(self).same_stacks(*old(self)),
    {
        match self.api_state.verify_options() {
            Ok(_) => {
                self.api_state = ApiState::WorldBlock;
                Ok(())
            },
            Err(e) => Err(e),
        }
    }

    /// `AttributeBegin`: saves copies of the current graphics state and
    /// transform, supplied by the driver.
    pub fn attribute_begin(&mut self, gs: G, t: T) -> (r: Result<(), ApiError>)
        ensures
            r is Ok <==> old(self).api_state == ApiState::WorldBlock,
            r is Ok ==> final(self).pushed_graphics_states@ == old(
                self,
            ).pushed_graphics_states@.push(gs) && final(self).pushed_transforms@ == old(
                self,
            ).pushed_transforms@.push(t),
            r is Err ==> *final(self) == *old(self) && r == Err::<(), ApiError>(
                old(self).api_state.spec_world_error(),
            ),
            final(self).api_state == old(self).api_state,
            final(self).current_instance == old(self).current_instance,
    {
        match self.api_state.verify_world() {
            Ok(_) => {
                self.pushed_graphics_states.push(gs);
                self.pushed_transforms.push(t);
                Ok(())
            },
            Err(e) => Err(e),
        }
    }

    /// `AttributeEnd`: takes back the most recently saved graphics state
    /// and transform. An unmatched `AttributeEnd` is not an error: the
    /// directive is ignored and `Ok(None)` says so, for the driver to log.
    pub fn attribute_end(&mut self) -> (r: Result<Option<(G, T)>, ApiError>)
        requires
            old(self).pushed_graphics_states@.len() > 0 ==> old(self).pushed_transforms@.len() > 0,
        ensures
            r is Ok <==> old(self).api_state == ApiState::WorldBlock,
            r is Err ==> *final(self) == *old(self) && r == Err::<Option<(G, T)>, ApiError>(
                old(self).api_state.spec_world_error(),
            ),
            r == Ok::<Option<(G, T)>, ApiError>(None) ==> *final(self) == *old(self),
            r is Ok ==> if old(self).pushed_graphics_states@.len() == 0 {
                r == Ok::<Option<(G, T)>, ApiError>(None)
            } else {
                &&& r == Ok::<Option<(G, T)>, ApiError>(
                    Some(
                        (
                            old(self).pushed_graphics_states@.last(),
                            old(self).pushed_transforms@.last(),
                        ),
                    ),
                )
                &&& final(self).pushed_graphics_states@ == old(
                    self,
                ).pushed_graphics_states@.drop_last()
                &&& final(self).pushed_transforms@ == old(self).pushed_transforms@.drop_last()
            },
            final(self).api_state == old(self).api_state,
            final(self).current_instance == old(self).current_instance,
    {
        match self.api_state.verify_world() {
            Ok(_) => {
                if self.pushed_graphics_states.len() == 0 {
                    Ok(None)
                } else {
                    let g = self.restore_graphics_state();
                    let t = self.restore_transform();
                    Ok(Some((g, t)))
                }
            },
            Err(e) => Err(e),
        }
    }

    /// `TransformBegin`: saves a copy of the current transform.
    pub fn transform_begin(&mut self, t: T) -> (r: Result<(), ApiError>)
        ensures
            r is Ok <==> old(self).api_state == ApiState::WorldBlock,
            r is Ok ==> final(self).pushed_transforms@ == old(self).pushed_transforms@.push(t),
            r is Err ==> *final(self) == *old(self) && r == Err::<(), ApiError>(
                old(self).api_state.spec_world_error(),
            ),
            final(self).pushed_graphics_states@ == old(self).pushed_graphics_states@,
            final(self).api_state == old(self).api_state,
            final(self).current_instance == old(self).current_instance,
    {
        match self.api_state.verify_world() {
            Ok(_) => {
                self.pushed_transforms.push(t);
                Ok(())
            },
            Err(e) => Err(e),
        }
    }

    /// `TransformEnd`: takes back the most recently saved transform; an
    /// unmatched `TransformEnd` is ignored and reported as `Ok(None)`.
    pub fn transform_end(&mut self) -> (r: Result<Option<T>, ApiError>)
        ensures
            r is Ok <==> old(self).api_state == ApiState::WorldBlock,
            r is Err ==> *final(self) == *old(self) && r == Err::<Option<T>, ApiError>(
                old(self).api_state.spec_world_error(),
            ),
            r == Ok::<Option<T>, ApiError>(None) ==> *final(self) == *old(self),
            r is Ok ==> if old(self).pushed_transforms@.len() == 0 {
                r == Ok::<Option<T>, ApiError>(None)
            } else {
                &&& r == Ok::<Option<T>, ApiError>(Some(old(self).pushed_transforms@.last()))
                &&& final(self).pushed_transforms@ == old(self).pushed_transforms@.drop_last()
            },
            final(self).pushed_graphics_states@ == old(self).pushed_graphics_states@,
            final(self).api_state == old(self).api_state,
            final(self).current_instance == old(self).current_instance,
    {
        match self.api_state.verify_world() {
            Ok(_) => {
                if self.pushed_transforms.len() == 0 {
                    Ok(None)
                } else {
                    let t = self.restore_transform();
                    Ok(Some(t))
                }
            },
            Err(e) => Err(e),
        }
    }

    /// `ObjectBegin`: opens a named object definition. The attribute save
    /// happens before the nesting check, so a rejected nested `ObjectBegin`
    /// still leaves its save on the stacks.
    pub fn object_begin(&mut self, name: String, gs: G, t: T) -> (r: Result<(), ApiError>)
        ensures
            r is Ok <==> old(self).api_state == ApiState::WorldBlock && old(
                self,
            ).current_instance is None,
            old(self).api_state == ApiState::WorldBlock ==> final(self).pushed_graphics_states@
                == old(self).pushed_graphics_states@.push(gs) && final(self).pushed_transforms@
                == old(self).pushed_transforms@.push(t),
            old(self).api_state != ApiState::WorldBlock ==> *final(self) == *old(self) && r
                == Err::<(), ApiError>(old(self).api_state.spec_world_error()),
            old(self).api_state == ApiState::WorldBlock && old(self).current_instance is Some ==> r
                == Err::<(), ApiError>(ApiError::ObjectBeginInsideInstance)
                && final(self).current_instance == old(self).current_instance,
            r is Ok ==> final(self).current_instance == Some(name),
            final(self).api_state == old(self).api_state,
    {
        match self.attribute_begin(gs, t) {
            Ok(_) => {
                if self.current_instance.is_some() {
                    Err(ApiError::ObjectBeginInsideInstance)
                } else {
                    self.current_instance = Some(name);
                    Ok(())
                }
            },
            Err(e) => Err(e),
        }
    }

    /// `ObjectEnd`: closes the open object definition and restores the
    /// attribute save taken at `ObjectBegin`.
    pub fn object_end(&mut self) -> (r: Result<Option<(G, T)>, ApiError>)
        requires
            old(self).pushed_graphics_states@.len() > 0 ==> old(self).pushed_transforms@.len() > 0,
        ensures
            r is Ok <==> old(self).api_state == ApiState::WorldBlock && old(
                self,
            ).current_instance is Some,
            old(self).api_state != ApiState::WorldBlock ==> *final(self) == *old(self) && r
                == Err::<Option<(G, T)>, ApiError>(old(self).api_state.spec_world_error()),
            old(self).api_state == ApiState::WorldBlock && old(self).current_instance is None
                ==> *final(self) == *old(self) && r == Err::<Option<(G, T)>, ApiError>(
                ApiError::ObjectEndOutsideInstance,
            ),
            r is Ok ==> final(self).current_instance is None && if old(
                self,
            ).pushed_graphics_states@.len() == 0 {
                r == Ok::<Option<(G, T)>, ApiError>(None) && final(self).pushed_graphics_states@
                    == old(self).pushed_graphics_states@ && final(self).pushed_transforms@ == old(
                    self,
                ).pushed_transforms@
            } else {
                &&& r == Ok::<Option<(G, T)>, ApiError>(
                    Some(
                        (
                            old(self).pushed_graphics_states@.last(),
                            old(self).pushed_transforms@.last(),
                        ),
                    ),
                )
                &&& final(self).pushed_graphics_states@ == old(
                    self,
                ).pushed_graphics_states@.drop_last()
                &&& final(self).pushed_transforms@ == old(self).pushed_transforms@.drop_last()
            },
            final(self).api_state == old(self).api_state,
    {
        match self.api_state.verify_world() {
            Ok(_) => {
                if self.current_instance.is_none() {
                    Err(ApiError::ObjectEndOutsideInstance)
                } else {
                    self.current_instance = None;
                    self.attribute_end()
                }
            },
            Err(e) => Err(e),
        }
    }

    /// `ObjectInstance` placement check: legal only in the world block and
    /// outside any object definition. Looking the named aggregate up and
    /// wrapping it in a transformed primitive is the driver's work.
    pub fn object_instance_check(&self) -> (r: Result<(), ApiError>)
        ensures
            r is Ok <==> self.api_state == ApiState::WorldBlock && self.current_instance is None,
            self.api_state != ApiState::WorldBlock ==> r == Err::<(), ApiError>(
                self.api_state.spec_world_error(),
            ),
            self.api_state == ApiState::WorldBlock && self.current_instance is Some ==> r
                == Err::<(), ApiError>(ApiError::ObjectInstanceInsideInstance),
    {
        match self.api_state.verify_world() {
            Ok(_) => {
                if self.current_instance.is_some() {
                    Err(ApiError::ObjectInstanceInsideInstance)
                } else {
                    Ok(())
                }
            },
            Err(e) => Err(e),
        }
    }

    /// `WorldEnd`: empties whatever is left on the attribute and transform
    /// stacks (each leftover save is a missing `AttributeEnd` or
    /// `TransformEnd` for the driver to warn about) and returns the
    /// description to its initial block. Returns how many saves of each
    /// kind were dropped.
    pub fn world_end(&mut self) -> (r: Result<(usize, usize), ApiError>)
        ensures
            r is Ok <==> old(self).api_state == ApiState::WorldBlock,
            r is Err ==> *final(self) == *old(self) && r == Err::<(usize, usize), ApiError>(
                old(self).api_state.spec_world_error(),
            ),
            r is Ok ==> {
                &&& r == Ok::<(usize, usize), ApiError>(
                    (
                        old(self).pushed_graphics_states@.len() as usize,
                        old(self).pushed_transforms@.len() as usize,
                    ),
                )
                &&& final(self).pushed_graphics_states@.len() == 0
                &&& final(self).pushed_transforms@.len() == 0
                &&& final(self).api_state == ApiState::Uninitialized
            },
            final(self).current_instance == old(self).current_instance,
    {
        match self.api_state.verify_world() {
            Ok(_) => {
                let dropped_graphics = self.pushed_graphics_states.len();
                let dropped_transforms = self.pushed_transforms.len();
                self.pushed_graphics_states.clear();
                self.pushed_transforms.clear();
                self.api_state = ApiState::Uninitialized;
                Ok((dropped_graphics, dropped_transforms))
            },
            Err(e) => Err(e),
        }
    }
}


/// Compares a directive's name against a known keyword.
fn name_is(name: &String, keyword: &str) -> (r: bool)
    ensures
        r == (name@ == keyword@),
{
    let k: String = keyword.to_owned();
    *name == k
}

/// The reconstruction filters a `PixelFilter` directive can name.
#[derive(Debug, Copy, Clone, PartialEq, Eq, Structural)]
pub enum FilterKind {
    Box,
    Mitchell,
    Gaussian,
    Triangle,
}

pub open spec fn spec_filter_kind(n: Seq<char>) -> Option<FilterKind> {
    if n == "box"@ {
        Some(FilterKind::Box)
    } else if n == "mitchell"@ {
        Some(FilterKind::Mitchell)
    } else if n == "gaussian"@ {
        Some(FilterKind::Gaussian)
    } else if n == "triangle"@ {
        Some(FilterKind::Triangle)
    } else {
        None
    }
}

/// Which filter a `PixelFilter` directive asks for; an unknown name is a
/// hard error in the driver.
pub fn filter_kind(name: &String) -> (r: Option<FilterKind>)
    ensures
        r == spec_filter_kind(name@),
{
    if name_is(name, "box") {
        Some(FilterKind::Box)
    } else if name_is(name, "mitchell") {
        Some(FilterKind::Mitchell)
    } else if name_is(name, "gaussian") {
        Some(FilterKind::Gaussian)
    } else if name_is(name, "triangle") {
        Some(FilterKind::Triangle)
    } else {
        None
    }
}

/// The integrators an `Integrator` directive can name.
#[derive(Debug, Copy, Clone, PartialEq, Eq, Structural)]
pub enum IntegratorKind {
    Whitted,
    DirectLighting,
    Path,
    Normal,
}

pub open spec fn spec_integrator_kind(n: Seq<char>) -> Option<IntegratorKind> {
    if n == "whitted"@ {
        Some(IntegratorKind::Whitted)
    } else if n == "directlighting"@ {
        Some(IntegratorKind::DirectLighting)
    } else if n == "path"@ {
        Some(IntegratorKind::Path)
    } else if n == "normal"@ {
        Some(IntegratorKind::Normal)
    } else {
        None
    }
}

/// Which integrator an `Integrator` directive asks for; an unknown name is
/// a hard error in the driver.
pub fn integrator_kind(name: &String) -> (r: Option<IntegratorKind>)
    ensures
        r == spec_integrator_kind(name@),
{
    if name_is(name, "whitted") {
        Some(IntegratorKind::Whitted)
    } else if name_is(name, "directlighting") {
        Some(IntegratorKind::DirectLighting)
    } else if name_is(name, "path") {
        Some(IntegratorKind::Path)
    } else if name_is(name, "normal") {
        Some(IntegratorKind::Normal)
    } else {
        None
    }
}

/// Both accepted sampler names select the (0,2)-sequence sampler; any
/// other name is a hard error in the driver.
pub fn sampler_is_low_discrepancy(name: &String) -> (r: bool)
    ensures
        r == (name@ == "lowdiscrepancy"@ || name@ == "02sequence"@),
{
    name_is(name, "lowdiscrepancy") || name_is(name, "02sequence")
}

/// The materials a `Material` directive can name.
#[derive(Debug, Copy, Clone, PartialEq, Eq, Structural)]
pub enum MaterialKind {
    Matte,
    Plastic,
    Glass,
    Mirror,
    Metal,
    Substrate,
    Translucent,
    Uber,
    Disney,
}

pub open spec fn spec_material_kind(n: Seq<char>) -> MaterialKind {
    if n == "matte"@ {
        MaterialKind::Matte
    } else if n == "plastic"@ {
        MaterialKind::Plastic
    } else if n == "glass"@ {
        MaterialKind::Glass
    } else if n == "mirror"@ {
        MaterialKind::Mirror
    } else if n == "metal"@ {
        MaterialKind::Metal
    } else if n == "substrate"@ {
        MaterialKind::Substrate
    } else if n == "translucent"@ {
        MaterialKind::Translucent
    } else if n == "uber"@ {
        MaterialKind::Uber
    } else if n == "disney"@ {
        MaterialKind::Disney
    } else {
        MaterialKind::Matte
    }
}

pub open spec fn spec_material_known(n: Seq<char>) -> bool {
    ||| n == "matte"@
    ||| n == "plastic"@
    ||| n == "glass"@
    ||| n == "mirror"@
    ||| n == "metal"@
    ||| n == "substrate"@
    ||| n == "translucent"@
    ||| n == "uber"@
    ||| n == "disney"@
}

/// Which material a `Material` directive asks for. An unknown name falls
/// back to matte, and the flag says whether the name was known, so the
/// driver can warn.
pub fn material_kind(name: &String) -> (r: (MaterialKind, bool))
    ensures
        r.0 == spec_material_kind(name@),
        r.1 == spec_material_known(name@),
{
    if name_is(name, "matte") {
        (MaterialKind::Matte, true)
    } else if name_is(name, "plastic") {
        (MaterialKind::Plastic, true)
    } else if name_is(name, "glass") {
        (MaterialKind::Glass, true)
    } else if name_is(name, "mirror") {
        (MaterialKind::Mirror, true)
    } else if name_is(name, "metal") {
        (MaterialKind::Metal, true)
    } else if name_is(name, "substrate") {
        (MaterialKind::Substrate, true)
    } else if name_is(name, "translucent") {
        (MaterialKind::Translucent, true)
    } else if name_is(name, "uber") {
        (MaterialKind::Uber, true)
    } else if name_is(name, "disney") {
        (MaterialKind::Disney, true)
    } else {
        (MaterialKind::Matte, false)
    }
}

/// The lights a `LightSource` directive can name.
#[derive(Debug, Copy, Clone, PartialEq, Eq, Structural)]
pub enum LightKind {
    Point,
    Distant,
    Infinite,
}

pub open spec fn spec_light_kind(n: Seq<char>) -> Option<LightKind> {
    if n == "point"@ {
        Some(LightKind::Point)
    } else if n == "distant"@ {
        Some(LightKind::Distant)
    } else if n == "infinite"@ {
        Some(LightKind::Infinite)
    } else {
        None
    }
}

/// Which light a `LightSource` directive asks for; an unsupported name is
/// an error in the driver.
pub fn light_kind(name: &String) -> (r: Option<LightKind>)
    ensures
        r == spec_light_kind(name@),
{
    if name_is(name, "point") {
        Some(LightKind::Point)
    } else if name_is(name, "distant") {
        Some(LightKind::Distant)
    } else if name_is(name, "infinite") {
        Some(LightKind::Infinite)
    } else {
        None
    }
}

/// An `AreaLightSource` directive accepts these two names for the diffuse
/// area light; anything else is an error in the driver.
pub fn area_light_is_diffuse(name: &String) -> (r: bool)
    ensures
        r == (name@ == "area"@ || name@ == "diffuse"@),
{
    name_is(name, "area") || name_is(name, "diffuse")
}

/// The shapes a `Shape` directive can name and construct.
#[derive(Debug, Copy, Clone, PartialEq, Eq, Structural)]
pub enum ShapeKind {
    Sphere,
    Cylinder,
    Disk,
    TriangleMesh,
    PlyMesh,
}

/// What to do with a `Shape` directive's name: build the shape, reject a
/// recognized shape that is not implemented, or warn about an unknown one
/// and build nothing.
#[derive(Debug, Copy, Clone, PartialEq, Eq, Structural)]
pub enum ShapeDecision {
    Supported(ShapeKind),
    Unsupported,
    Unknown,
}

pub open spec fn spec_shape_decision(n: Seq<char>) -> ShapeDecision {
    if n == "sphere"@ {
        ShapeDecision::Supported(ShapeKind::Sphere)
    } else if n == "cylinder"@ {
        ShapeDecision::Supported(ShapeKind::Cylinder)
    } else if n == "disk"@ {
        ShapeDecision::Supported(ShapeKind::Disk)
    } else if n == "trianglemesh"@ {
        ShapeDecision::Supported(ShapeKind::TriangleMesh)
    } else if n == "plymesh"@ {
        ShapeDecision::Supported(ShapeKind::PlyMesh)
    } else if n == "cone"@ || n == "paraboloid"@ || n == "hyperboloid"@ || n == "curve"@ {
        ShapeDecision::Unsupported
    } else {
        ShapeDecision::Unknown
    }
}

pub fn shape_decision(name: &String) -> (r: ShapeDecision)
    ensures
        r == spec_shape_decision(name@),
{
    if name_is(name, "sphere") {
        ShapeDecision::Supported(ShapeKind::Sphere)
    } else if name_is(name, "cylinder") {
        ShapeDecision::Supported(ShapeKind::Cylinder)
    } else if name_is(name, "disk") {
        ShapeDecision::Supported(ShapeKind::Disk)
    } else if name_is(name, "trianglemesh") {
        ShapeDecision::Supported(ShapeKind::TriangleMesh)
    } else if name_is(name, "plymesh") {
        ShapeDecision::Supported(ShapeKind::PlyMesh)
    } else if name_is(name, "cone") || name_is(name, "paraboloid") || name_is(name, "hyperboloid")
        || name_is(name, "curve") {
        ShapeDecision::Unsupported
    } else {
        ShapeDecision::Unknown
    }
}

/// The accelerators an `Accelerator` directive can name.
#[derive(Debug, Copy, Clone, PartialEq, Eq, Structural)]
pub enum AcceleratorDecision {
    /// Build the bounding volume hierarchy.
    Bvh,
    /// Recognized but not implemented.
    KdTree,
    /// Unknown: the driver warns and builds the hierarchy anyway.
    Unknown,
}

pub open spec fn spec_accelerator_decision(n: Seq<char>) -> AcceleratorDecision {
    if n == "bvh"@ {
        AcceleratorDecision::Bvh
    } else if n == "kdtree"@ {
        AcceleratorDecision::KdTree
    } else {
        AcceleratorDecision::Unknown
    }
}

pub fn accelerator_decision(name: &String) -> (r: AcceleratorDecision)
    ensures
        r == spec_accelerator_decision(name@),
{
    if name_is(name, "bvh") {
        AcceleratorDecision::Bvh
    } else if name_is(name, "kdtree") {
        AcceleratorDecision::KdTree
    } else {
        AcceleratorDecision::Unknown
    }
}

/// The textures a float `Texture` directive can name.
#[derive(Debug, Copy, Clone, PartialEq, Eq, Structural)]
pub enum FloatTextureKind {
    Constant,
    Scale,
    ImageMap,
    Fbm,
}

pub open spec fn spec_float_texture_kind(n: Seq<char>) -> Option<FloatTextureKind> {
    if n == "constant"@ {
        Some(FloatTextureKind::Constant)
    } else if n == "scale"@ {
        Some(FloatTextureKind::Scale)
    } else if n == "imagemap"@ {
        Some(FloatTextureKind::ImageMap)
    } else if n == "fbm"@ {
        Some(FloatTextureKind::Fbm)
    } else {
        None
    }
}

/// Which float texture a `Texture` directive asks for; an unknown name is
/// an error in the driver.
pub fn float_texture_kind(name: &String) -> (r: Option<FloatTextureKind>)
    ensures
        r == spec_float_texture_kind(name@),
{
    if name_is(name, "constant") {
        Some(FloatTextureKind::Constant)
    } else if name_is(name, "scale") {
        Some(FloatTextureKind::Scale)
    } else if name_is(name, "imagemap") {
        Some(FloatTextureKind::ImageMap)
    } else if name_is(name, "fbm") {
        Some(FloatTextureKind::Fbm)
    } else {
        None
    }
}

/// The textures a spectrum `Texture` directive can name and construct.
#[derive(Debug, Copy, Clone, PartialEq, Eq, Structural)]
pub enum SpectrumTextureKind {
    Constant,
    Scale,
    ImageMap,
    Uv,
    Checkerboard,
    Fbm,
}

/// What to do with a spectrum `Texture` directive's name: build the
/// texture, reject a recognized texture that is not implemented, or raise
/// an error for an unknown one.
#[derive(Debug, Copy, Clone, PartialEq, Eq, Structural)]
pub enum SpectrumTextureDecision {
    Supported(SpectrumTextureKind),
    Unsupported,
    Unknown,
}

pub open spec fn spec_spectrum_texture_decision(n: Seq<char>) -> SpectrumTextureDecision {
    if n == "constant"@ {
        SpectrumTextureDecision::Supported(SpectrumTextureKind::Constant)
    } else if n == "scale"@ {
        SpectrumTextureDecision::Supported(SpectrumTextureKind::Scale)
    } else if n == "imagemap"@ {
        SpectrumTextureDecision::Supported(SpectrumTextureKind::ImageMap)
    } else if n == "uv"@ {
        SpectrumTextureDecision::Supported(SpectrumTextureKind::Uv)
    } else if n == "checkerboard"@ {
        SpectrumTextureDecision::Supported(SpectrumTextureKind::Checkerboard)
    } else if n == "fbm"@ {
        SpectrumTextureDecision::Supported(SpectrumTextureKind::Fbm)
    } else if n == "mix"@ || n == "bilerp"@ || n == "dots"@ || n == "wrinkled"@ || n == "marble"@
        || n == "windy"@ || n == "ptex"@ {
        SpectrumTextureDecision::Unsupported
    } else {
        SpectrumTextureDecision::Unknown
    }
}

pub fn spectrum_texture_decision(name: &String) -> (r: SpectrumTextureDecision)
    ensures
        r == spec_spectrum_texture_decision(name@),
{
    if name_is(name, "constant") {
        SpectrumTextureDecision::Supported(SpectrumTextureKind::Constant)
    } else if name_is(name, "scale") {
        SpectrumTextureDecision::Supported(SpectrumTextureKind::Scale)
    } else if name_is(name, "imagemap") {
        SpectrumTextureDecision::Supported(SpectrumTextureKind::ImageMap)
    } else if name_is(name, "uv") {
        SpectrumTextureDecision::Supported(SpectrumTextureKind::Uv)
    } else if name_is(name, "checkerboard") {
        SpectrumTextureDecision::Supported(SpectrumTextureKind::Checkerboard)
    } else if name_is(name, "fbm") {
        SpectrumTextureDecision::Supported(SpectrumTextureKind::Fbm)
    } else if name_is(name, "mix") || name_is(name, "bilerp") || name_is(name, "dots") || name_is(
        name,
        "wrinkled",
    ) || name_is(name, "marble") || name_is(name, "windy") || name_is(name, "ptex") {
        SpectrumTextureDecision::Unsupported
    } else {
        SpectrumTextureDecision::Unknown
    }
}


/// The options a scene description collects before its world block: which
/// film, filter, sampler, accelerator, integrator and camera to build,
/// each with the parameters its directive carried. The camera-to-world
/// transform and the lights, primitives and instance aggregates collected
/// alongside are floating-point scene data and stay with the driver.
pub struct RenderOptions<N> {
    pub film_name: String,
    pub film_params: crate::paramset::ParamSet<N>,
    pub filter_name: String,
    pub filter_params: crate::paramset::ParamSet<N>,
    pub sampler_name: String,
    pub sampler_params: crate::paramset::ParamSet<N>,
    pub accelerator_name: String,
    pub accelerator_params: crate::paramset::ParamSet<N>,
    pub integrator_name: String,
    pub integrator_params: crate::paramset::ParamSet<N>,
    pub camera_name: String,
    pub camera_params: crate::paramset::ParamSet<N>,
}

impl<N: Copy> RenderOptions<N> {
    /// What renders when no options directive says otherwise. The default
    /// sampler name is not one the sampler dispatch accepts: a description
    /// that names no sampler draws a hard error when the sampler is built.
    pub fn new() -> (r: RenderOptions<N>)
        ensures
            r.film_name@ == "image"@,
            r.filter_name@ == "box"@,
            r.sampler_name@ == "halton"@,
            r.accelerator_name@ == "bvh"@,
            r.integrator_name@ == "path"@,
            r.camera_name@ == "perspective"@,
            r.film_params.spec_is_empty(),
            r.filter_params.spec_is_empty(),
            r.sampler_params.spec_is_empty(),
            r.accelerator_params.spec_is_empty(),
            r.integrator_params.spec_is_empty(),
            r.camera_params.spec_is_empty(),
    {
        RenderOptions {
            film_name: "image".to_owned(),
            film_params: crate::paramset::ParamSet::new(),
            filter_name: "box".to_owned(),
            filter_params: crate::paramset::ParamSet::new(),
            sampler_name: "halton".to_owned(),
            sampler_params: crate::paramset::ParamSet::new(),
            accelerator_name: "bvh".to_owned(),
            accelerator_params: crate::paramset::ParamSet::new(),
            integrator_name: "path".to_owned(),
            integrator_params: crate::paramset::ParamSet::new(),
            camera_name: "perspective".to_owned(),
            camera_params: crate::paramset::ParamSet::new(),
        }
    }
}

impl<N: Copy> Default for RenderOptions<N> {
    fn default() -> (r: Self)
        ensures
            r.film_name@ == "image"@,
            r.filter_name@ == "box"@,
            r.sampler_name@ == "halton"@,
            r.accelerator_name@ == "bvh"@,
            r.integrator_name@ == "path"@,
            r.camera_name@ == "perspective"@,
    {
        RenderOptions::new()
    }
}


/// Whether a `Texture` directive defines a float texture or a spectrum
/// texture.
#[derive(Debug, Copy, Clone, PartialEq, Eq, Structural)]
pub enum TextureDataKind {
    Float,
    Spectrum,
}

pub open spec fn spec_texture_data_kind(n: Seq<char>) -> Option<TextureDataKind> {
    if n == "float"@ {
        Some(TextureDataKind::Float)
    } else if n == "color"@ || n == "spectrum"@ {
        Some(TextureDataKind::Spectrum)
    } else {
        None
    }
}

/// Which of the two texture tables a `Texture` directive's type string
/// selects; an unknown type string is an error the driver logs.
pub fn texture_data_kind(name: &String) -> (r: Option<TextureDataKind>)
    ensures
        r == spec_texture_data_kind(name@),
{
    if name_is(name, "float") {
        Some(TextureDataKind::Float)
    } else if name_is(name, "color") || name_is(name, "spectrum") {
        Some(TextureDataKind::Spectrum)
    } else {
        None
    }
}

/// The one fatal outcome of `WorldEnd`: a scene with no primitives and no
/// lights renders nothing, and the driver aborts the render instead of
/// degrading; every other directive error only degrades the scene.
pub fn scene_is_fatal(n_primitives: usize, n_lights: usize) -> (r: bool)
    ensures
        r == (n_primitives == 0 && n_lights == 0),
{
    n_primitives == 0 && n_lights == 0
}

/// The named object aggregates of the world block: `ObjectBegin` opens an
/// empty aggregate, every shape inside the definition appends its
/// primitives to it, and `ObjectInstance` reads it back to wrap. The
/// primitives are the driver's type and pass through opaquely.
pub struct ObjectInstances<P> {
    pub table: crate::registry::Registry<Vec<P>>,
}

impl<P> ObjectInstances<P> {
    pub open spec fn wf(self) -> bool {
        self.table.wf()
    }

    /// The aggregates as a map from name to primitive list.
    pub open spec fn to_map(self) -> Map<Seq<char>, Vec<P>> {
        self.table.to_map()
    }

    pub fn new() -> (r: ObjectInstances<P>)
        ensures
            r.wf(),
            r.to_map() =~= Map::<Seq<char>, Vec<P>>::empty(),
    {
        ObjectInstances { table: crate::registry::Registry::new() }
    }

    /// `ObjectBegin`: registers an empty aggregate under the name,
    /// silently replacing any earlier definition of that name.
    pub fn begin(&mut self, name: String) -> (replaced: bool)
        requires
            old(self).wf(),
        ensures
            final(self).wf(),
            final(self).to_map().dom() =~= old(self).to_map().dom().insert(name@),
            final(self).to_map()[name@]@ == Seq::<P>::empty(),
            forall|k: Seq<char>|
                k != name@ && old(self).to_map().dom().contains(k)
                    ==> #[trigger] final(self).to_map()[k] == old(self).to_map()[k],
            replaced <==> old(self).to_map().dom().contains(name@),
    {
        let fresh: Vec<P> = Vec::new();
        self.table.insert(name, fresh)
    }

    /// A shape inside an open object definition: appends its primitives to
    /// the named aggregate, in order. A false answer says the name was
    /// never opened, which the driver reports as an unknown instance.
    pub fn add(&mut self, name: &String, prims: Vec<P>) -> (found: bool)
        requires
            old(self).wf(),
        ensures
            final(self).wf(),
            found <==> old(self).to_map().dom().contains(name@),
            found ==> {
                &&& final(self).to_map().dom() =~= old(self).to_map().dom()
                &&& final(self).to_map()[name@]@ == old(self).to_map()[name@]@ + prims@
                &&& forall|k: Seq<char>|
                    k != name@ && old(self).to_map().dom().contains(k)
                        ==> #[trigger] final(self).to_map()[k] == old(self).to_map()[k]
            },
            !found ==> *final(self) == *old(self),
    {
        let found = crate::registry::find_name(&self.table.entries, name);
        match found {
            Some(i) => {
                proof {
                    crate::registry::lemma_assoc_contains_at(self.table.entries@, i as int);
                }
                let mut prims = prims;
                let mut tmp: (String, Vec<P>) = (String::new(), Vec::new());
                let ghost old_table = self.table.entries@;
                self.table.entries.set_and_swap(i, &mut tmp);
                tmp.1.append(&mut prims);
                self.table.entries.set_and_swap(i, &mut tmp);
                proof {
                    assert(self.table.entries@ =~= old_table.update(
                        i as int,
                        (old_table[i as int].0, self.table.entries@[i as int].1),
                    ));
                    crate::registry::lemma_assoc_update(
                        old_table,
                        i as int,
                        (old_table[i as int].0, self.table.entries@[i as int].1),
                    );
                    assert(crate::registry::distinct_names(self.table.entries@)) by {
                        assert(forall|k: int|
                            0 <= k < self.table.entries@.len() ==> self.table.entries@[k].0@
                                == old_table[k].0@);
                    }
                }
                true
            },
            None => {
                proof {
                    crate::registry::lemma_assoc_not_contains(self.table.entries@, name@);
                }
                false
            },
        }
    }

    /// `ObjectInstance` sizing: how many primitives the named aggregate
    /// holds — none registered (the driver errors), an empty aggregate
    /// (the instance is skipped), one (wrapped directly), or more (the
    /// driver builds one aggregate primitive over them first).
    pub fn instance_size(&self, name: &String) -> (r: Option<usize>)
        requires
            self.wf(),
        ensures
            match r {
                Some(n) => self.to_map().dom().contains(name@) && n == self.to_map()[name@]@.len(),
                None => !self.to_map().dom().contains(name@),
            },
    {
        match self.table.get(name) {
            Some(v) => Some(v.len()),
            None => None,
        }
    }

    /// After the driver built one aggregate primitive over a
    /// many-primitive definition, that primitive stands in for the whole
    /// list, shared by this and every later instance of the name.
    pub fn collapse(&mut self, name: &String, aggregate: P) -> (found: bool)
        requires
            old(self).wf(),
        ensures
            final(self).wf(),
            found <==> old(self).to_map().dom().contains(name@),
            found ==> {
                &&& final(self).to_map().dom() =~= old(self).to_map().dom()
                &&& final(self).to_map()[name@]@ =~= seq![aggregate]
                &&& forall|k: Seq<char>|
                    k != name@ && old(self).to_map().dom().contains(k)
                        ==> #[trigger] final(self).to_map()[k] == old(self).to_map()[k]
            },
            !found ==> *final(self) == *old(self),
    {
        if self.table.contains(name) {
            let mut single: Vec<P> = Vec::new();
            single.push(aggregate);
            self.table.insert(name.clone(), single);
            true
        } else {
            false
        }
    }

    /// The primitive an `ObjectInstance` wraps: the first of the named
    /// aggregate, shared into the driver's transformed primitive.
    pub fn first(&self, name: &String) -> (r: Option<&P>)
        requires
            self.wf(),
        ensures
            match r {
                Some(p) => self.to_map().dom().contains(name@) && self.to_map()[name@]@.len() > 0
                    && *p == self.to_map()[name@]@[0],
                None => !self.to_map().dom().contains(name@) || self.to_map()[name@]@.len() == 0,
            },
    {
        match self.table.get(name) {
            Some(v) => {
                if v.len() > 0 {
                    Some(&v[0])
                } else {
                    None
                }
            },
            None => None,
        }
    }
}

} // verus!
