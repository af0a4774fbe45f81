//! The spot light shader of the deferred lighting pass: resolves the
//! sampler locations and the uniform block the pass binds.

use vstd::prelude::*;
use vstd::string::StringExecFns;

use crate::error::FrameworkError;
use crate::gpu::{
    spec_block_lookup, spec_program_lookup, spec_uniform_lookup, GpuProgram, GraphicsServer,
    UniformLocation,
};

verus! {

/// The compiled spot light program and its reflected binding points.
#[derive(Debug)]
pub struct SpotLightShader {
    pub program: GpuProgram,
    pub depth_sampler: UniformLocation,
    pub color_sampler: UniformLocation,
    pub normal_sampler: UniformLocation,
    pub material_sampler: UniformLocation,
    pub spot_shadow_texture: UniformLocation,
    pub cookie_texture: UniformLocation,
    pub uniform_buffer_binding: usize,
}

/// Whether a program reflects every sampler the spot light pass binds.
pub open spec fn spec_spot_light_samplers_ok(p: GpuProgram) -> bool {
    &&& spec_uniform_lookup(p.uniforms@, "depthTexture"@) is Some
    &&& spec_uniform_lookup(p.uniforms@, "colorTexture"@) is Some
    &&& spec_uniform_lookup(p.uniforms@, "normalTexture"@) is Some
    &&& spec_uniform_lookup(p.uniforms@, "materialTexture"@) is Some
    &&& spec_uniform_lookup(p.uniforms@, "spotShadowTexture"@) is Some
    &&& spec_uniform_lookup(p.uniforms@, "cookieTexture"@) is Some
}

/// Whether a program reflects every name the spot light pass binds.
pub open spec fn spec_spot_light_names_ok(p: GpuProgram) -> bool {
    &&& spec_spot_light_samplers_ok(p)
    &&& spec_block_lookup(p.blocks@, "Uniforms"@) is Some
}

impl SpotLightShader {
    /// Builds the spot light shader against the server's program registry:
    /// fetches the program named `SpotLightShader` and resolves its six
    /// samplers and its uniform block. Succeeds exactly when the program is
    /// registered and reflects every name; a missing program or name is
    /// reported as the matching error.
    pub fn new(server: &GraphicsServer) -> (r: Result<SpotLightShader, FrameworkError>)
        ensures
            match spec_program_lookup(server.programs@, "SpotLightShader"@) {
                None => r matches Err(e) && e == FrameworkError::ProgramNotFound,
                Some(p) => match r {
                    Ok(s) => {
                        &&& spec_spot_light_names_ok(p)
                        &&& s.program.uniforms@ == p.uniforms@
                        &&& s.program.blocks@ == p.blocks@
                        &&& Some(s.depth_sampler.id) == spec_uniform_lookup(
                            p.uniforms@,
                            "depthTexture"@,
                        )
                        &&& Some(s.color_sampler.id) == spec_uniform_lookup(
                            p.uniforms@,
                            "colorTexture"@,
                        )
                        &&& Some(s.normal_sampler.id) == spec_uniform_lookup(
                            p.uniforms@,
                            "normalTexture"@,
                        )
                        &&& Some(s.material_sampler.id) == spec_uniform_lookup(
                            p.uniforms@,
                            "materialTexture"@,
                        )
                        &&& Some(s.spot_shadow_texture.id) == spec_uniform_lookup(
                            p.uniforms@,
                            "spotShadowTexture"@,
                        )
                        &&& Some(s.cookie_texture.id) == spec_uniform_lookup(
                            p.uniforms@,
                            "cookieTexture"@,
                        )
                        &&& Some(s.uniform_buffer_binding) == spec_block_lookup(
                            p.blocks@,
                            "Uniforms"@,
                        )
                    },
                    Err(e) => {
                        &&& !spec_spot_light_names_ok(p)
                        &&& e == (if spec_spot_light_samplers_ok(p) {
                            FrameworkError::ShaderBlockNotFound
                        } else {
                            FrameworkError::ShaderUniformNotFound
                        })
                    },
                },
            },
    {
        let program = match server.create_program(&String::from_str("SpotLightShader")) {
            Ok(p) => p,
            Err(e) => {
                return Err(e);
            },
        };
        let depth_sampler = match program.uniform_location(&String::from_str("depthTexture")) {
            Ok(l) => l,
            Err(e) => {
                return Err(e);
            },
        };
        let color_sampler = match program.uniform_location(&String::from_str("colorTexture")) {
            Ok(l) => l,
            Err(e) => {
                return Err(e);
            },
        };
        let normal_sampler = match program.uniform_location(&String::from_str("normalTexture")) {
            Ok(l) => l,
            Err(e) => {
                return Err(e);
            },
        };
        let material_sampler = match program.uniform_location(
            &String::from_str("materialTexture"),
        ) {
            Ok(l) => l,
            Err(e) => {
                return Err(e);
            },
        };
        let spot_shadow_texture = match program.uniform_location(
            &String::from_str("spotShadowTexture"),
        ) {
            Ok(l) => l,
            Err(e) => {
                return Err(e);
            },
        };
        let cookie_texture = match program.uniform_location(&String::from_str("cookieTexture")) {
            Ok(l) => l,
            Err(e) => {
                return Err(e);
            },
        };
        let uniform_buffer_binding = match program.uniform_block_index(
            &String::from_str("Uniforms"),
        ) {
            Ok(i) => i,
            Err(e) => {
                return Err(e);
            },
        };
        Ok(
            SpotLightShader {
                program,
                depth_sampler,
                color_sampler,
                normal_sampler,
                material_sampler,
                spot_shadow_texture,
                cookie_texture,
                uniform_buffer_binding,
            },
        )
    }
}

} // verus!
