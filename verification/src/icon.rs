//! The two faces of the tray icon, and the pixels behind them.

use vstd::prelude::*;
use vstd::string::*;
use crate::service::ServiceState;

verus! {

/// Which of the two icons the tray shows.
#[derive(Clone, Copy, Debug, PartialEq, Eq, Structural)]
pub enum IconId {
    /// Shown while the service runs.
    Started,
    /// Shown while the service does not run.
    Stopped,
}

impl IconId {
    /// The icon that stands for `state`.
    pub open spec fn spec_for_state(state: ServiceState) -> IconId {
        match state {
            ServiceState::Active => IconId::Started,
            ServiceState::Inactive => IconId::Stopped,
        }
    }

    /// The icon that stands for `state`.
    #[verifier::when_used_as_spec(spec_for_state)]
    pub fn for_state(state: ServiceState) -> (icon: IconId)
        ensures
            icon == IconId::spec_for_state(state),
    {
        match state {
            ServiceState::Active => IconId::Started,
            ServiceState::Inactive => IconId::Stopped,
        }
    }
}

/// Why bytes do not make an icon.
#[derive(Clone, Copy, Debug, PartialEq, Eq, Structural)]
pub enum IconError {
    /// The bytes are not an image that can be decoded.
    Undecodable,
    /// The number of bytes is no multiple of four, so they are not pixels of
    /// four channels each.
    ByteCountNotDivisibleBy4,
    /// The number of pixels is not the width times the height.
    DimensionsVsPixelCount,
}

/// What keeps `byte_count` bytes from being the pixels, four bytes each, of an
/// image `width` wide and `height` high.
pub open spec fn shape_fault(byte_count: nat, width: u32, height: u32) -> Option<IconError> {
    if byte_count % 4 != 0 {
        Some(IconError::ByteCountNotDivisibleBy4)
    } else if byte_count / 4 != width * height {
        Some(IconError::DimensionsVsPixelCount)
    } else {
        None
    }
}

/// An icon's pixels as contracts see them.
pub struct IconImageView {
    pub rgba: Seq<u8>,
    pub width: u32,
    pub height: u32,
}

/// An icon's pixels: red, green, blue and alpha for each, row by row. There
/// are as many pixels as the width times the height.
pub struct IconImage {
    rgba: Vec<u8>,
    width: u32,
    height: u32,
}

impl View for IconImage {
    type V = IconImageView;

    closed spec fn view(&self) -> IconImageView {
        IconImageView { rgba: self.rgba@, width: self.width, height: self.height }
    }
}

impl IconImage {
    /// The pixels fill the image exactly.
    pub open spec fn wf(&self) -> bool {
        shape_fault(self@.rgba.len(), self@.width, self@.height) is None
    }

    /// Makes an icon of `rgba`, checking that the bytes are the pixels of an
    /// image `width` wide and `height` high.
    pub fn from_rgba(rgba: Vec<u8>, width: u32, height: u32) -> (made: Result<
        IconImage,
        IconError,
    >)
        ensures
            match made {
                Ok(image) => image.wf() && image@ == (IconImageView {
                    rgba: rgba@,
                    width,
                    height,
                }),
                Err(fault) => shape_fault(rgba@.len(), width, height) == Some(fault),
            },
    {
        let byte_count = rgba.len();
        if byte_count % 4 != 0 {
            return Err(IconError::ByteCountNotDivisibleBy4);
        }
        assert(width * height <= u64::MAX) by (nonlinear_arith)
            requires
                width <= u32::MAX,
                height <= u32::MAX,
        ;
        let pixels: u64 = (width as u64) * (height as u64);
        if (byte_count / 4) as u64 != pixels {
            return Err(IconError::DimensionsVsPixelCount);
        }
        Ok(IconImage { rgba, width, height })
    }

    /// The pixels' bytes.
    pub fn rgba(&self) -> (rgba: &Vec<u8>)
        ensures
            rgba@ == self@.rgba,
    {
        &self.rgba
    }

    /// The width in pixels.
    pub fn width(&self) -> (width: u32)
        ensures
            width == self@.width,
    {
        self.width
    }

    /// The height in pixels.
    pub fn height(&self) -> (height: u32)
        ensures
            height == self@.height,
    {
        self.height
    }
}

/// What decoding yields for the bytes of an image file: the pixels as bytes
/// of red, green, blue and alpha, the width and the height; `None` for bytes
/// that cannot be decoded.
pub uninterp spec fn decoded_rgba8(bytes: Seq<u8>) -> Option<(Seq<u8>, u32, u32)>;

/// The icon that comes of what decoding yielded.
pub open spec fn icon_of_decoded(decoded: Option<(Seq<u8>, u32, u32)>) -> Result<
    IconImageView,
    IconError,
> {
    match decoded {
        None => Err(IconError::Undecodable),
        Some((rgba, width, height)) => match shape_fault(rgba.len(), width, height) {
            Some(fault) => Err(fault),
            None => Ok(IconImageView { rgba, width, height }),
        },
    }
}

/// The decoder's own account of why bytes are no image. Carried, never read.
#[verifier::external_type_specification]
#[verifier::external_body]
pub struct ExImageError(image::ImageError);

/// Decodes an image file held in memory with `image::load_from_memory`,
/// which tells the format by the bytes themselves, and converts what comes
/// out to eight-bit RGBA. Trusted: that the outcome is a function of the
/// bytes alone, here called [`decoded_rgba8`]. Nothing is claimed of what the
/// pixels are.
#[verifier::external_body]
fn decode_rgba8(bytes: &[u8]) -> (decoded: Result<(Vec<u8>, u32, u32), image::ImageError>)
    ensures
        match decoded {
            Ok((rgba, width, height)) => decoded_rgba8(bytes@) == Some((rgba@, width, height)),
            Err(_) => decoded_rgba8(bytes@) is None,
        },
{
    let image = image::load_from_memory(bytes)?.into_rgba8();
    let (width, height) = image.dimensions();
    Ok((image.into_raw(), width, height))
}

/// The pair of icons between which the tray switches.
pub struct Icon {
    active: IconImage,
    inactive: IconImage,
}

impl Icon {
    /// The icon shown while the service runs.
    pub closed spec fn spec_active(&self) -> IconImageView {
        self.active@
    }

    /// The icon shown while the service does not run.
    pub closed spec fn spec_inactive(&self) -> IconImageView {
        self.inactive@
    }

    /// The pixels behind `id`.
    pub open spec fn spec_image(&self, id: IconId) -> IconImageView {
        match id {
            IconId::Started => self.spec_active(),
            IconId::Stopped => self.spec_inactive(),
        }
    }

    /// Both icons' pixels fill their images exactly.
    pub closed spec fn wf(&self) -> bool {
        self.active.wf() && self.inactive.wf()
    }

    /// Loads the pair from the bytes of two image files. Fails with the fault
    /// of the first file that does not make an icon.
    pub fn new(active_file: &[u8], inactive_file: &[u8]) -> (pair: Result<Icon, IconError>)
        ensures
            match pair {
                Ok(icons) => icons.wf() && icon_of_decoded(decoded_rgba8(active_file@)) == Ok::<
                    IconImageView,
                    IconError,
                >(icons.spec_active()) && icon_of_decoded(decoded_rgba8(inactive_file@)) == Ok::<
                    IconImageView,
                    IconError,
                >(icons.spec_inactive()),
                Err(fault) => match icon_of_decoded(decoded_rgba8(active_file@)) {
                    Err(first) => fault == first,
                    Ok(_) => icon_of_decoded(decoded_rgba8(inactive_file@)) == Err::<
                        IconImageView,
                        IconError,
                    >(fault),
                },
            },
    {
        let active = match Icon::load_icon(active_file) {
            Ok(image) => image,
            Err(fault) => {
                return Err(fault);
            },
        };
        let inactive = match Icon::load_icon(inactive_file) {
            Ok(image) => image,
            Err(fault) => {
                return Err(fault);
            },
        };
        Ok(Icon { active, inactive })
    }

    /// The icon for a service that runs (`status`) or does not.
    pub fn get_actual_icon(&self, status: bool) -> (image: &IconImage)
        requires
            self.wf(),
        ensures
            image.wf(),
            image@ == self.spec_image(IconId::spec_for_state(ServiceState::spec_from_active(status))),
    {
        match status {
            true => &self.active,
            false => &self.inactive,
        }
    }

    /// The pixels behind `id`.
    pub fn image(&self, id: IconId) -> (image: &IconImage)
        requires
            self.wf(),
        ensures
            image.wf(),
            image@ == self.spec_image(id),
    {
        match id {
            IconId::Started => &self.active,
            IconId::Stopped => &self.inactive,
        }
    }

    /// Makes an icon of the bytes of an image file: decodes them and checks
    /// that what comes out has as many pixels as its width and height say.
    pub fn load_icon(file: &[u8]) -> (loaded: Result<IconImage, IconError>)
        ensures
            match loaded {
                Ok(image) => image.wf() && icon_of_decoded(decoded_rgba8(file@)) == Ok::<
                    IconImageView,
                    IconError,
                >(image@),
                Err(fault) => icon_of_decoded(decoded_rgba8(file@)) == Err::<
                    IconImageView,
                    IconError,
                >(fault),
            },
    {
        match decode_rgba8(file) {
            Err(_) => Err(IconError::Undecodable),
            Ok((rgba, width, height)) => IconImage::from_rgba(rgba, width, height),
        }
    }

    /// Where the icon file called `file_name` lies below `base_dir`.
    pub fn resource_path(base_dir: &str, file_name: &str) -> (path: String)
        ensures
            path@ == base_dir@ + "/resources/"@ + file_name@,
    {
        let mut path = String::from_str(base_dir);
        path.append("/resources/");
        path.append(file_name);
        path
    }
}

} // verus!
