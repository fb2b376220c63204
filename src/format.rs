use image::ImageFormat as ContainerFormat;
use vstd::prelude::*;

verus! {

/// The container formats that a conversion can produce.
#[derive(Clone, Copy, Debug, PartialEq, Eq, Structural)]
pub enum ImageFormat {
    Jpg,
    Avif,
    Png,
    Webp,
}

/// The `image` crate's name for each target container.
pub open spec fn container_of(f: ImageFormat) -> ContainerFormat {
    match f {
        ImageFormat::Jpg => ContainerFormat::Jpeg,
        ImageFormat::Avif => ContainerFormat::Avif,
        ImageFormat::Png => ContainerFormat::Png,
        ImageFormat::Webp => ContainerFormat::WebP,
    }
}

impl From<ImageFormat> for ContainerFormat {
    fn from(value: ImageFormat) -> (r: ContainerFormat)
        ensures
            r == container_of(value),
    {
        match value {
            ImageFormat::Jpg => ContainerFormat::Jpeg,
            ImageFormat::Avif => ContainerFormat::Avif,
            ImageFormat::Png => ContainerFormat::Png,
            ImageFormat::Webp => ContainerFormat::WebP,
        }
    }
}

impl vstd::std_specs::convert::FromSpecImpl<ImageFormat> for ContainerFormat {
    open spec fn obeys_from_spec() -> bool {
        true
    }

    open spec fn from_spec(v: ImageFormat) -> ContainerFormat {
        container_of(v)
    }
}

} // verus!
