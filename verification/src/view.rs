//! Construction of the four native view-description variants.
//!
//! A generic "view into a texture" request (dimension, formats, mip and
//! array ranges, multisample flag) is turned into exactly one native
//! shader-resource, unordered-access, render-target or depth-stencil
//! view description. The dimension dispatch rules are load-bearing: the
//! native API has no cube unordered-access or render-target views, and
//! no 3D depth-stencil views, so those requests fail with an argument
//! error rather than being silently coerced. A base layer of zero takes
//! the simple variant: a multisampled 2D or 2D-array request starting
//! at layer zero yields the plain multisampled view, and a cube request
//! starting at face zero yields the plain cube view.

use vstd::prelude::*;

use crate::resource::{NativeFormat, Texture, TextureFormat};

verus! {

/// Identity mapping of the four shader components, the value the native
/// API defines for "no swizzle".
pub const D3D12_DEFAULT_SHADER_4_COMPONENT_MAPPING: u32 = 0x1688;

/// Mip or array count meaning "all remaining levels/layers from the
/// base". The sentinel is preserved, never resolved eagerly, because
/// the resource's extent may not be known where a view is described.
pub const UNBOUNDED_COUNT: u32 = 0xFFFF_FFFF;

/// Dimensionality a texture view is requested with.
#[derive(Clone, Copy, Debug, PartialEq, Eq, Structural)]
pub enum TextureViewDimension {
    D1,
    D2,
    D2Array,
    Cube,
    CubeArray,
    D3,
}

/// Which aspects of a depth-stencil attachment are bound read-only.
#[derive(Clone, Copy, Debug, PartialEq, Eq, Structural)]
pub struct FormatAspects {
    pub depth: bool,
    pub stencil: bool,
}

/// Mip and array window of a texture view request; `None` counts mean
/// "all remaining from the base".
#[derive(Clone, Copy, Debug, PartialEq, Eq, Structural)]
pub struct TextureSubresourceRange {
    pub base_mip_level: u32,
    pub mip_level_count: Option<u32>,
    pub base_array_layer: u32,
    pub array_layer_count: Option<u32>,
}

/// A generic texture view request, before dimension dispatch.
#[derive(Clone, Copy, Debug, PartialEq, Eq, Structural)]
pub struct TextureViewDescriptor {
    pub dimension: TextureViewDimension,
    pub format: TextureFormat,
    pub range: TextureSubresourceRange,
}

/// The resolved view request all four builders dispatch on.
#[derive(Clone, Copy, Debug, PartialEq, Eq, Structural)]
pub struct ViewDescriptor {
    pub dimension: TextureViewDimension,
    /// Native format of the view, as the format layer mapped it.
    pub format: NativeFormat,
    /// Same format with the depth aspect stripped, used for sampling.
    pub format_nodepth: NativeFormat,
    pub multisampled: bool,
    pub array_layer_base: u32,
    pub array_layer_count: u32,
    pub mip_level_base: u32,
    pub mip_level_count: u32,
}

/// A count request with the unbounded sentinel applied.
pub open spec fn spec_resolve_count(count: Option<u32>) -> u32 {
    match count {
        Some(c) => c,
        None => UNBOUNDED_COUNT,
    }
}

impl TextureViewDescriptor {
    /// Resolves a request against the texture it views: the multisample
    /// flag comes from the texture, absent counts become the unbounded
    /// sentinel, and the two native formats are supplied by the format
    /// layer (the plain one and the depth-stripped one).
    pub fn to_internal(
        &self,
        texture: &Texture,
        format: NativeFormat,
        format_nodepth: NativeFormat,
    ) -> (r: ViewDescriptor)
        ensures
            r.dimension == self.dimension,
            r.format == format,
            r.format_nodepth == format_nodepth,
            r.multisampled == (texture.sample_count > 1),
            r.mip_level_base == self.range.base_mip_level,
            r.mip_level_count == spec_resolve_count(self.range.mip_level_count),
            r.array_layer_base == self.range.base_array_layer,
            r.array_layer_count == spec_resolve_count(self.range.array_layer_count),
    {
        ViewDescriptor {
            dimension: self.dimension,
            format,
            format_nodepth,
            multisampled: texture.sample_count > 1,
            mip_level_base: self.range.base_mip_level,
            mip_level_count: match self.range.mip_level_count {
                Some(count) => count,
                None => UNBOUNDED_COUNT,
            },
            array_layer_base: self.range.base_array_layer,
            array_layer_count: match self.range.array_layer_count {
                Some(count) => count,
                None => UNBOUNDED_COUNT,
            },
        }
    }
}

/// A view request named a dimension the requested view kind does not
/// exist for in the native API.
#[derive(Clone, Copy, Debug, PartialEq, Eq, Structural)]
pub enum ViewError {
    /// Cube views exist only for shader-resource views; 3D views do not
    /// exist for depth-stencil.
    UnsupportedDimension,
}

/// Dimension dispatch of a shader-resource view description.
#[derive(Clone, Copy, Debug, PartialEq, Eq, Structural)]
pub enum SrvDimension {
    Tex1d { most_detailed_mip: u32, mip_levels: u32 },
    Tex2d { most_detailed_mip: u32, mip_levels: u32, plane_slice: u32 },
    Tex2dMs,
    Tex2dMsArray { first_array_slice: u32, array_size: u32 },
    Tex2dArray {
        most_detailed_mip: u32,
        mip_levels: u32,
        first_array_slice: u32,
        array_size: u32,
        plane_slice: u32,
    },
    Tex3d { most_detailed_mip: u32, mip_levels: u32 },
    Cube { most_detailed_mip: u32, mip_levels: u32 },
    CubeArray {
        most_detailed_mip: u32,
        mip_levels: u32,
        first_2d_array_face: u32,
        num_cubes: u32,
    },
}

/// A native shader-resource view description.
#[derive(Clone, Copy, Debug, PartialEq, Eq, Structural)]
pub struct SrvDesc {
    pub format: NativeFormat,
    pub shader_4_component_mapping: u32,
    pub dimension: SrvDimension,
}

/// Dimension dispatch of an unordered-access view description.
#[derive(Clone, Copy, Debug, PartialEq, Eq, Structural)]
pub enum UavDimension {
    Tex1d { mip_slice: u32 },
    Tex2d { mip_slice: u32, plane_slice: u32 },
    Tex2dArray { mip_slice: u32, first_array_slice: u32, array_size: u32, plane_slice: u32 },
    Tex3d { mip_slice: u32, first_w_slice: u32, w_size: u32 },
}

/// A native unordered-access view description.
#[derive(Clone, Copy, Debug, PartialEq, Eq, Structural)]
pub struct UavDesc {
    pub format: NativeFormat,
    pub dimension: UavDimension,
}

/// Dimension dispatch of a render-target view description.
#[derive(Clone, Copy, Debug, PartialEq, Eq, Structural)]
pub enum RtvDimension {
    Tex1d { mip_slice: u32 },
    Tex2d { mip_slice: u32, plane_slice: u32 },
    Tex2dMs,
    Tex2dMsArray { first_array_slice: u32, array_size: u32 },
    Tex2dArray { mip_slice: u32, first_array_slice: u32, array_size: u32, plane_slice: u32 },
    Tex3d { mip_slice: u32, first_w_slice: u32, w_size: u32 },
}

/// A native render-target view description.
#[derive(Clone, Copy, Debug, PartialEq, Eq, Structural)]
pub struct RtvDesc {
    pub format: NativeFormat,
    pub dimension: RtvDimension,
}

/// Depth-stencil view flag bit: the depth aspect is read-only.
pub const DSV_FLAG_READ_ONLY_DEPTH: u32 = 0x1;

/// Depth-stencil view flag bit: the stencil aspect is read-only.
pub const DSV_FLAG_READ_ONLY_STENCIL: u32 = 0x2;

/// Dimension dispatch of a depth-stencil view description.
#[derive(Clone, Copy, Debug, PartialEq, Eq, Structural)]
pub enum DsvDimension {
    Tex1d { mip_slice: u32 },
    Tex2d { mip_slice: u32 },
    Tex2dMs,
    Tex2dMsArray { first_array_slice: u32, array_size: u32 },
    Tex2dArray { mip_slice: u32, first_array_slice: u32, array_size: u32 },
}

/// A native depth-stencil view description.
#[derive(Clone, Copy, Debug, PartialEq, Eq, Structural)]
pub struct DsvDesc {
    pub format: NativeFormat,
    pub flags: u32,
    pub dimension: DsvDimension,
}

/// Cube-array face count: the layer count divided into cubes of six
/// faces, with the unbounded sentinel passed through undivided.
pub open spec fn spec_num_cubes(array_layer_count: u32) -> u32 {
    if array_layer_count == UNBOUNDED_COUNT {
        UNBOUNDED_COUNT
    } else {
        (array_layer_count / 6) as u32
    }
}

/// The shader-resource dimension dispatch rules, stated case by case.
pub open spec fn spec_srv_dimension(v: ViewDescriptor) -> SrvDimension {
    match v.dimension {
        TextureViewDimension::D1 => SrvDimension::Tex1d {
            most_detailed_mip: v.mip_level_base,
            mip_levels: v.mip_level_count,
        },
        TextureViewDimension::D2 | TextureViewDimension::D2Array => {
            if v.multisampled && v.array_layer_base == 0 {
                SrvDimension::Tex2dMs
            } else if v.multisampled {
                SrvDimension::Tex2dMsArray {
                    first_array_slice: v.array_layer_base,
                    array_size: v.array_layer_count,
                }
            } else if v.dimension == TextureViewDimension::D2 && v.array_layer_base == 0 {
                SrvDimension::Tex2d {
                    most_detailed_mip: v.mip_level_base,
                    mip_levels: v.mip_level_count,
                    plane_slice: 0,
                }
            } else {
                SrvDimension::Tex2dArray {
                    most_detailed_mip: v.mip_level_base,
                    mip_levels: v.mip_level_count,
                    first_array_slice: v.array_layer_base,
                    array_size: v.array_layer_count,
                    plane_slice: 0,
                }
            }
        },
        TextureViewDimension::D3 => SrvDimension::Tex3d {
            most_detailed_mip: v.mip_level_base,
            mip_levels: v.mip_level_count,
        },
        TextureViewDimension::Cube | TextureViewDimension::CubeArray => {
            if v.dimension == TextureViewDimension::Cube && v.array_layer_base == 0 {
                SrvDimension::Cube {
                    most_detailed_mip: v.mip_level_base,
                    mip_levels: v.mip_level_count,
                }
            } else {
                SrvDimension::CubeArray {
                    most_detailed_mip: v.mip_level_base,
                    mip_levels: v.mip_level_count,
                    first_2d_array_face: v.array_layer_base,
                    num_cubes: spec_num_cubes(v.array_layer_count),
                }
            }
        },
    }
}

/// The unordered-access dimension dispatch rules; cube dimensions have
/// no unordered-access views.
pub open spec fn spec_uav_dimension(v: ViewDescriptor) -> Result<UavDimension, ViewError> {
    match v.dimension {
        TextureViewDimension::D1 => Ok(UavDimension::Tex1d { mip_slice: v.mip_level_base }),
        TextureViewDimension::D2 | TextureViewDimension::D2Array => {
            if v.dimension == TextureViewDimension::D2 && v.array_layer_base == 0 {
                Ok(UavDimension::Tex2d { mip_slice: v.mip_level_base, plane_slice: 0 })
            } else {
                Ok(UavDimension::Tex2dArray {
                    mip_slice: v.mip_level_base,
                    first_array_slice: v.array_layer_base,
                    array_size: v.array_layer_count,
                    plane_slice: 0,
                })
            }
        },
        TextureViewDimension::D3 => Ok(UavDimension::Tex3d {
            mip_slice: v.mip_level_base,
            first_w_slice: v.array_layer_base,
            w_size: v.array_layer_count,
        }),
        TextureViewDimension::Cube | TextureViewDimension::CubeArray => Err(
            ViewError::UnsupportedDimension,
        ),
    }
}

/// The render-target dimension dispatch rules; cube dimensions have no
/// render-target views.
pub open spec fn spec_rtv_dimension(v: ViewDescriptor) -> Result<RtvDimension, ViewError> {
    match v.dimension {
        TextureViewDimension::D1 => Ok(RtvDimension::Tex1d { mip_slice: v.mip_level_base }),
        TextureViewDimension::D2 | TextureViewDimension::D2Array => {
            if v.multisampled && v.array_layer_base == 0 {
                Ok(RtvDimension::Tex2dMs)
            } else if v.multisampled {
                Ok(RtvDimension::Tex2dMsArray {
                    first_array_slice: v.array_layer_base,
                    array_size: v.array_layer_count,
                })
            } else if v.dimension == TextureViewDimension::D2 && v.array_layer_base == 0 {
                Ok(RtvDimension::Tex2d { mip_slice: v.mip_level_base, plane_slice: 0 })
            } else {
                Ok(RtvDimension::Tex2dArray {
                    mip_slice: v.mip_level_base,
                    first_array_slice: v.array_layer_base,
                    array_size: v.array_layer_count,
                    plane_slice: 0,
                })
            }
        },
        TextureViewDimension::D3 => Ok(RtvDimension::Tex3d {
            mip_slice: v.mip_level_base,
            first_w_slice: v.array_layer_base,
            w_size: v.array_layer_count,
        }),
        TextureViewDimension::Cube | TextureViewDimension::CubeArray => Err(
            ViewError::UnsupportedDimension,
        ),
    }
}

/// The depth-stencil dimension dispatch rules; 3D and cube dimensions
/// have no depth-stencil views.
pub open spec fn spec_dsv_dimension(v: ViewDescriptor) -> Result<DsvDimension, ViewError> {
    match v.dimension {
        TextureViewDimension::D1 => Ok(DsvDimension::Tex1d { mip_slice: v.mip_level_base }),
        TextureViewDimension::D2 | TextureViewDimension::D2Array => {
            if v.multisampled && v.array_layer_base == 0 {
                Ok(DsvDimension::Tex2dMs)
            } else if v.multisampled {
                Ok(DsvDimension::Tex2dMsArray {
                    first_array_slice: v.array_layer_base,
                    array_size: v.array_layer_count,
                })
            } else if v.dimension == TextureViewDimension::D2 && v.array_layer_base == 0 {
                Ok(DsvDimension::Tex2d { mip_slice: v.mip_level_base })
            } else {
                Ok(DsvDimension::Tex2dArray {
                    mip_slice: v.mip_level_base,
                    first_array_slice: v.array_layer_base,
                    array_size: v.array_layer_count,
                })
            }
        },
        TextureViewDimension::D3 | TextureViewDimension::Cube
        | TextureViewDimension::CubeArray => Err(ViewError::UnsupportedDimension),
    }
}

/// Read-only flags of a depth-stencil view, one bit per aspect.
pub open spec fn spec_dsv_flags(ro_aspects: FormatAspects) -> u32 {
    (if ro_aspects.depth {
        DSV_FLAG_READ_ONLY_DEPTH
    } else {
        0u32
    }) | (if ro_aspects.stencil {
        DSV_FLAG_READ_ONLY_STENCIL
    } else {
        0u32
    })
}

impl ViewDescriptor {
    /// Shader-resource view of this request. Every dimension has one;
    /// the view samples with the depth-stripped format.
    pub fn to_srv(&self) -> (r: SrvDesc)
        ensures
            r.format == self.format_nodepth,
            r.shader_4_component_mapping == D3D12_DEFAULT_SHADER_4_COMPONENT_MAPPING,
            r.dimension == spec_srv_dimension(*self),
            (self.dimension == TextureViewDimension::D2 && !self.multisampled
                && self.array_layer_base == 0) ==> r.dimension == (SrvDimension::Tex2d {
                most_detailed_mip: self.mip_level_base,
                mip_levels: self.mip_level_count,
                plane_slice: 0,
            }),
            ((self.dimension == TextureViewDimension::D2 || self.dimension
                == TextureViewDimension::D2Array) && self.multisampled && self.array_layer_base
                == 0) ==> r.dimension == SrvDimension::Tex2dMs,
    {
        let dimension = match self.dimension {
            TextureViewDimension::D1 => SrvDimension::Tex1d {
                most_detailed_mip: self.mip_level_base,
                mip_levels: self.mip_level_count,
            },
            TextureViewDimension::D2 | TextureViewDimension::D2Array => {
                if self.multisampled && self.array_layer_base == 0 {
                    SrvDimension::Tex2dMs
                } else if self.multisampled {
                    SrvDimension::Tex2dMsArray {
                        first_array_slice: self.array_layer_base,
                        array_size: self.array_layer_count,
                    }
                } else if self.dimension == TextureViewDimension::D2 && self.array_layer_base
                    == 0 {
                    SrvDimension::Tex2d {
                        most_detailed_mip: self.mip_level_base,
                        mip_levels: self.mip_level_count,
                        plane_slice: 0,
                    }
                } else {
                    SrvDimension::Tex2dArray {
                        most_detailed_mip: self.mip_level_base,
                        mip_levels: self.mip_level_count,
                        first_array_slice: self.array_layer_base,
                        array_size: self.array_layer_count,
                        plane_slice: 0,
                    }
                }
            },
            TextureViewDimension::D3 => SrvDimension::Tex3d {
                most_detailed_mip: self.mip_level_base,
                mip_levels: self.mip_level_count,
            },
            TextureViewDimension::Cube if self.array_layer_base == 0 => SrvDimension::Cube {
                most_detailed_mip: self.mip_level_base,
                mip_levels: self.mip_level_count,
            },
            TextureViewDimension::Cube | TextureViewDimension::CubeArray => {
                SrvDimension::CubeArray {
                    most_detailed_mip: self.mip_level_base,
                    mip_levels: self.mip_level_count,
                    first_2d_array_face: self.array_layer_base,
                    num_cubes: if self.array_layer_count == UNBOUNDED_COUNT {
                        UNBOUNDED_COUNT
                    } else {
                        self.array_layer_count / 6
                    },
                }
            },
        };
        SrvDesc {
            format: self.format_nodepth,
            shader_4_component_mapping: D3D12_DEFAULT_SHADER_4_COMPONENT_MAPPING,
            dimension,
        }
    }

    /// Unordered-access view of this request; cube dimensions are an
    /// argument error.
    pub fn to_uav(&self) -> (r: Result<UavDesc, ViewError>)
        ensures
            r is Err <==> (self.dimension == TextureViewDimension::Cube || self.dimension
                == TextureViewDimension::CubeArray),
            r is Err ==> r == Result::<UavDesc, ViewError>::Err(ViewError::UnsupportedDimension),
            r matches Ok(desc) ==> desc.format == self.format_nodepth && Ok::<
                UavDimension,
                ViewError,
            >(desc.dimension) == spec_uav_dimension(*self),
            (self.dimension == TextureViewDimension::D2 && self.array_layer_base == 0)
                ==> (r matches Ok(desc) && desc.dimension == (UavDimension::Tex2d {
                mip_slice: self.mip_level_base,
                plane_slice: 0,
            })),
    {
        let dimension = match self.dimension {
            TextureViewDimension::D1 => UavDimension::Tex1d { mip_slice: self.mip_level_base },
            TextureViewDimension::D2 if self.array_layer_base == 0 => UavDimension::Tex2d {
                mip_slice: self.mip_level_base,
                plane_slice: 0,
            },
            TextureViewDimension::D2 | TextureViewDimension::D2Array => UavDimension::Tex2dArray {
                mip_slice: self.mip_level_base,
                first_array_slice: self.array_layer_base,
                array_size: self.array_layer_count,
                plane_slice: 0,
            },
            TextureViewDimension::D3 => UavDimension::Tex3d {
                mip_slice: self.mip_level_base,
                first_w_slice: self.array_layer_base,
                w_size: self.array_layer_count,
            },
            TextureViewDimension::Cube | TextureViewDimension::CubeArray => {
                return Err(ViewError::UnsupportedDimension);
            },
        };
        Ok(UavDesc { format: self.format_nodepth, dimension })
    }

    /// Render-target view of this request; cube dimensions are an
    /// argument error.
    pub fn to_rtv(&self) -> (r: Result<RtvDesc, ViewError>)
        ensures
            r is Err <==> (self.dimension == TextureViewDimension::Cube || self.dimension
                == TextureViewDimension::CubeArray),
            r is Err ==> r == Result::<RtvDesc, ViewError>::Err(ViewError::UnsupportedDimension),
            r matches Ok(desc) ==> desc.format == self.format && Ok::<RtvDimension, ViewError>(
                desc.dimension,
            ) == spec_rtv_dimension(*self),
            (self.dimension == TextureViewDimension::D2 && !self.multisampled
                && self.array_layer_base == 0) ==> (r matches Ok(desc) && desc.dimension == (
            RtvDimension::Tex2d { mip_slice: self.mip_level_base, plane_slice: 0 })),
            ((self.dimension == TextureViewDimension::D2 || self.dimension
                == TextureViewDimension::D2Array) && self.multisampled && self.array_layer_base
                == 0) ==> (r matches Ok(desc) && desc.dimension == RtvDimension::Tex2dMs),
    {
        let dimension = match self.dimension {
            TextureViewDimension::D1 => RtvDimension::Tex1d { mip_slice: self.mip_level_base },
            TextureViewDimension::D2 | TextureViewDimension::D2Array => {
                if self.multisampled && self.array_layer_base == 0 {
                    RtvDimension::Tex2dMs
                } else if self.multisampled {
                    RtvDimension::Tex2dMsArray {
                        first_array_slice: self.array_layer_base,
                        array_size: self.array_layer_count,
                    }
                } else if self.dimension == TextureViewDimension::D2 && self.array_layer_base
                    == 0 {
                    RtvDimension::Tex2d { mip_slice: self.mip_level_base, plane_slice: 0 }
                } else {
                    RtvDimension::Tex2dArray {
                        mip_slice: self.mip_level_base,
                        first_array_slice: self.array_layer_base,
                        array_size: self.array_layer_count,
                        plane_slice: 0,
                    }
                }
            },
            TextureViewDimension::D3 => RtvDimension::Tex3d {
                mip_slice: self.mip_level_base,
                first_w_slice: self.array_layer_base,
                w_size: self.array_layer_count,
            },
            TextureViewDimension::Cube | TextureViewDimension::CubeArray => {
                return Err(ViewError::UnsupportedDimension);
            },
        };
        Ok(RtvDesc { format: self.format, dimension })
    }

    /// Depth-stencil view of this request, with read-only flags derived
    /// from the aspects the caller marked read-only; 3D and cube
    /// dimensions are an argument error.
    pub fn to_dsv(&self, ro_aspects: FormatAspects) -> (r: Result<DsvDesc, ViewError>)
        ensures
            r is Err <==> (self.dimension == TextureViewDimension::D3 || self.dimension
                == TextureViewDimension::Cube || self.dimension
                == TextureViewDimension::CubeArray),
            r is Err ==> r == Result::<DsvDesc, ViewError>::Err(ViewError::UnsupportedDimension),
            r matches Ok(desc) ==> desc.format == self.format && desc.flags == spec_dsv_flags(
                ro_aspects,
            ) && Ok::<DsvDimension, ViewError>(desc.dimension) == spec_dsv_dimension(*self),
            (self.dimension == TextureViewDimension::D2 && !self.multisampled
                && self.array_layer_base == 0) ==> (r matches Ok(desc) && desc.dimension == (
            DsvDimension::Tex2d { mip_slice: self.mip_level_base })),
            ((self.dimension == TextureViewDimension::D2 || self.dimension
                == TextureViewDimension::D2Array) && self.multisampled && self.array_layer_base
                == 0) ==> (r matches Ok(desc) && desc.dimension == DsvDimension::Tex2dMs),
    {
        let dimension = match self.dimension {
            TextureViewDimension::D1 => DsvDimension::Tex1d { mip_slice: self.mip_level_base },
            TextureViewDimension::D2 | TextureViewDimension::D2Array => {
                if self.multisampled && self.array_layer_base == 0 {
                    DsvDimension::Tex2dMs
                } else if self.multisampled {
                    DsvDimension::Tex2dMsArray {
                        first_array_slice: self.array_layer_base,
                        array_size: self.array_layer_count,
                    }
                } else if self.dimension == TextureViewDimension::D2 && self.array_layer_base
                    == 0 {
                    DsvDimension::Tex2d { mip_slice: self.mip_level_base }
                } else {
                    DsvDimension::Tex2dArray {
                        mip_slice: self.mip_level_base,
                        first_array_slice: self.array_layer_base,
                        array_size: self.array_layer_count,
                    }
                }
            },
            TextureViewDimension::D3 | TextureViewDimension::Cube
            | TextureViewDimension::CubeArray => {
                return Err(ViewError::UnsupportedDimension);
            },
        };
        let depth_flag: u32 = if ro_aspects.depth {
            DSV_FLAG_READ_ONLY_DEPTH
        } else {
            0
        };
        let stencil_flag: u32 = if ro_aspects.stencil {
            DSV_FLAG_READ_ONLY_STENCIL
        } else {
            0
        };
        Ok(DsvDesc { format: self.format, flags: depth_flag | stencil_flag, dimension })
    }
}

} // verus!
