//! Shader-program metadata the render side threads through draw calls:
//! attribute locations and attribute names. Plain data only; compiling and
//! binding programs is GPU work and happens outside this crate.

use vstd::prelude::*;

verus! {

/// Holds the locations of attributes in a shader program.
#[derive(Clone, Copy, Debug, PartialEq, Eq, Structural)]
pub struct ProgramAttrLocations {
    pub perspective_matrix: i32,
    pub camera_matrix: i32,
    pub model_matrix: i32,
    pub texture: i32,
    pub sprite_frames: i32,
    pub sprite_current_frame: i32,
}

impl ProgramAttrLocations {
    /// Bundles the attribute locations a compiled program reported.
    pub fn new(
        perspective_matrix: i32,
        camera_matrix: i32,
        model_matrix: i32,
        texture: i32,
        sprite_frames: i32,
        sprite_current_frame: i32,
    ) -> (r: ProgramAttrLocations)
        ensures
            r == (ProgramAttrLocations {
                perspective_matrix,
                camera_matrix,
                model_matrix,
                texture,
                sprite_frames,
                sprite_current_frame,
            }),
    {
        ProgramAttrLocations {
            perspective_matrix,
            camera_matrix,
            model_matrix,
            texture,
            sprite_frames,
            sprite_current_frame,
        }
    }

    /// Returns the perspective matrix attribute location.
    pub fn perspective_matrix_location(&self) -> (r: i32)
        ensures
            r == self.perspective_matrix,
    {
        self.perspective_matrix
    }

    /// Returns the camera matrix attribute location.
    pub fn camera_matrix_location(&self) -> (r: i32)
        ensures
            r == self.camera_matrix,
    {
        self.camera_matrix
    }

    /// Returns the model matrix attribute location.
    pub fn model_matrix_location(&self) -> (r: i32)
        ensures
            r == self.model_matrix,
    {
        self.model_matrix
    }

    /// Returns the texture attribute location.
    pub fn texture_location(&self) -> (r: i32)
        ensures
            r == self.texture,
    {
        self.texture
    }

    /// Returns the sprite frame count attribute location.
    pub fn sprite_frames_location(&self) -> (r: i32)
        ensures
            r == self.sprite_frames,
    {
        self.sprite_frames
    }

    /// Returns the current sprite frame attribute location.
    pub fn sprite_current_frame_location(&self) -> (r: i32)
        ensures
            r == self.sprite_current_frame,
    {
        self.sprite_current_frame
    }
}

/// Holds names for program attributes, as they appear in shader source.
pub struct ProgramAttrNames {
    pub perspective_matrix: String,
    pub camera_matrix: String,
    pub model_matrix: String,
    pub in_vertex: String,
    pub out_vertex: String,
    pub in_color: String,
    pub out_color: String,
    pub vert_tex_coord: String,
    pub frag_tex_coord: String,
    pub tex_sampler: String,
    pub sprite_frames: String,
    pub sprite_current_frame: String,
}

} // verus!
