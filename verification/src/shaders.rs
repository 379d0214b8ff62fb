//! The two shader stages of the pipeline.

use vstd::prelude::*;

verus! {

/// The stage whose shader could not be loaded, with what the loader reported.
#[derive(Debug)]
pub enum ShaderFault<Error> {
    Fragment(Error),
    Vertex(Error),
}

/// What `build_shaders` makes of the two load results.
pub open spec fn built<Fragment, Vertex, Error>(
    fragment: Result<Fragment, Error>,
    vertex: Result<Vertex, Error>,
) -> Result<(Fragment, Vertex), ShaderFault<Error>> {
    match fragment {
        Err(error) => Err(ShaderFault::Fragment(error)),
        Ok(fragment) => match vertex {
            Err(error) => Err(ShaderFault::Vertex(error)),
            Ok(vertex) => Ok((fragment, vertex)),
        },
    }
}

/// Pairs the loaded fragment shader with the loaded vertex shader, in that
/// order. Where a stage did not load, names the stage: the fragment stage
/// where both failed, since it is loaded first.
pub fn build_shaders<Fragment, Vertex, Error>(
    fragment: Result<Fragment, Error>,
    vertex: Result<Vertex, Error>,
) -> (shaders: Result<(Fragment, Vertex), ShaderFault<Error>>)
    ensures
        shaders == built(fragment, vertex),
{
    let fragment = match fragment {
        Ok(fragment) => fragment,
        Err(error) => {
            return Err(ShaderFault::Fragment(error));
        },
    };
    let vertex = match vertex {
        Ok(vertex) => vertex,
        Err(error) => {
            return Err(ShaderFault::Vertex(error));
        },
    };
    Ok((fragment, vertex))
}

} // verus!
