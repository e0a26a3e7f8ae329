//! Declarations of the outside crates' types, and the trusted wrappers
//! around the calls the engine makes into them.
//!
//! Everything in this module that carries `external_body` or an assumed
//! specification is trusted: Verus believes the stated contract and
//! never looks at the call. Each item's doc comment names the outside
//! function relied on. The wrappers convert between the library's plain
//! values and the outside crates' types and make exactly the documented
//! call; every decision (protocol order, layer order, rectangle
//! contents, index checks) is taken in verified code before a wrapper
//! is reached.

use vstd::prelude::*;

verus! {

// ---------------------------------------------------------------------
// OpenXR value types carried through the engine.
// ---------------------------------------------------------------------

/// `openxr::Posef`: one eye's pose. Opaque to the verifier; the engine
/// copies poses into the layer plan unchanged and never reads inside.
#[verifier::external_type_specification]
#[verifier::external_body]
pub struct ExPosef(openxr::Posef);

/// `openxr::Fovf`: one eye's field of view. Opaque; carried through
/// unchanged.
#[verifier::external_type_specification]
#[verifier::external_body]
pub struct ExFovf(openxr::Fovf);

/// `openxr::View`: a pose and a field of view for one eye, as the
/// runtime's view-locate call produces them. Declared with its fields
/// visible so verified code can read `pose` and `fov`.
#[verifier::external_type_specification]
pub struct ExView(openxr::View);

/// `openxr::Time`: a runtime timestamp (the predicted display time).
/// Opaque; carried through to the end-of-frame submission.
#[verifier::external_type_specification]
#[verifier::external_body]
pub struct ExTime(openxr::Time);

/// `openxr::Duration`: a runtime time span.
#[verifier::external_type_specification]
#[verifier::external_body]
pub struct ExDuration(openxr::Duration);

/// `openxr::FrameState`: the runtime's per-frame timing and validity
/// data, produced at frame-begin time and replaced wholesale each
/// frame. Declared with its fields visible so code around the engine
/// can read the predicted display time and the should-render flag.
#[verifier::external_type_specification]
pub struct ExFrameState(openxr::FrameState);

/// `wgpu::TextureFormat`: the swapchain's texture format.
#[verifier::external_type_specification]
#[verifier::external_body]
pub struct ExTextureFormat(wgpu::TextureFormat);

/// `openxr::EnvironmentBlendMode`: how the runtime composites rendered
/// content with the user's surroundings. Opaque; carried through.
#[verifier::external_type_specification]
#[verifier::external_body]
pub struct ExEnvironmentBlendMode(openxr::EnvironmentBlendMode);

/// `openxr::sys::Result`: the runtime's raw result code, returned as
/// the error of every runtime call.
#[verifier::external_type_specification]
#[verifier::external_body]
pub struct ExSysResult(openxr::sys::Result);

/// `openxr::Space`: a reference space handle against which poses are
/// expressed.
#[verifier::external_type_specification]
#[verifier::external_body]
pub struct ExSpace(openxr::Space);

/// A caller-built composition layer, carried as a reference to the
/// runtime's wire form `openxr::CompositionLayerBase`. The engine
/// carries a passthrough layer through under this type — the outside
/// crate exposes no safe builder for one, so whoever owns the
/// passthrough feature builds the wire form and hands it in — while
/// the engine builds the projection layer itself.
///
/// Trusted container: `CompositionLayerBase`'s generic carries the
/// outside `Graphics` trait bound, which keeps the type itself from
/// being declared to the verifier, so the field is held opaquely, at
/// the one backend this build compiles.
#[verifier::external_body]
pub struct UnderlayLayer<'a> {
    pub raw: &'a openxr::CompositionLayerBase<'a, openxr::Vulkan>,
}

/// `openxr::Vulkan`: the marker type of the Vulkan graphics backend.
#[verifier::external_type_specification]
#[verifier::external_body]
pub struct ExVulkan(openxr::Vulkan);

/// `openxr::AnyGraphics`: the marker type of a backend-erased session.
#[verifier::external_type_specification]
#[verifier::external_body]
pub struct ExAnyGraphics(openxr::AnyGraphics);

/// `openxr::Session<G>`: a session handle for the graphics backend `G`.
#[verifier::external_type_specification]
#[verifier::external_body]
#[verifier::reject_recursive_types(G)]
pub struct ExSession<G>(openxr::Session<G>);

/// Holds `openxr::FrameStream<G>`: the channel through which finished
/// frames are submitted to the runtime.
///
/// Trusted container: `FrameStream`'s generic carries the outside
/// `Graphics` trait bound, which keeps the type itself from being
/// declared to the verifier, so it is held opaquely in a field, at the
/// one backend this build compiles.
#[verifier::external_body]
pub struct StreamHandle {
    pub raw: openxr::FrameStream<openxr::Vulkan>,
}

/// Holds `openxr::Swapchain<G>`: the runtime's image-acquisition
/// channel. Trusted container, for the same reason as [`StreamHandle`].
#[verifier::external_body]
pub struct RawSwapchain {
    pub raw: openxr::Swapchain<openxr::Vulkan>,
}

/// The runtime's swapchain handle together with the model of its
/// internal waited flag: whether an image is waited and unreleased.
///
/// `openxr::Swapchain` tracks that flag itself and panics when
/// `wait_image` or `release_image` is called against it, so the flag is
/// mirrored here as a ghost value that only the trusted wrappers below
/// update, and their contracts admit exactly the calls the outside
/// assertions admit.
pub struct SwapchainHandle {
    raw: RawSwapchain,
    waited: Ghost<bool>,
}

impl SwapchainHandle {
    /// The model of the handle's waited flag: whether an image is
    /// waited and unreleased.
    pub closed spec fn image_waited(self) -> bool {
        self.waited@
    }

    /// Take over a freshly created swapchain.
    ///
    /// Relies on the swapchain's construction in openxr, which starts
    /// every handle with no waited image (`waited: false`); the model
    /// starts the same way. Handing in a handle that was already waited
    /// on directly would falsify the model at its root.
    pub fn new(raw: RawSwapchain) -> (r: SwapchainHandle)
        ensures
            !r.image_waited(),
    {
        SwapchainHandle { raw, waited: Ghost(false) }
    }
}

/// Holds `openxr::CompositionLayerProjectionView<'a, G>`: the runtime's
/// wire form of one eye's projection record, borrowing the swapchain it
/// draws from. Trusted container, for the same reason as
/// [`StreamHandle`].
#[verifier::external_body]
pub struct EyeLayerView<'a> {
    pub raw: openxr::CompositionLayerProjectionView<'a, openxr::Vulkan>,
}

/// `openxr::CompositionLayerFlags`: the flag set of a composition
/// layer.
#[verifier::external_type_specification]
#[verifier::external_body]
pub struct ExCompositionLayerFlags(openxr::CompositionLayerFlags);

/// `wgpu::Texture`: a GPU texture handle.
#[verifier::external_type_specification]
#[verifier::external_body]
pub struct ExTexture(wgpu::Texture);

/// `wgpu::TextureView`: a render-target view over a texture.
#[verifier::external_type_specification]
#[verifier::external_body]
pub struct ExTextureView(wgpu::TextureView);

// ---------------------------------------------------------------------
// Trusted wrappers around the runtime calls.
// ---------------------------------------------------------------------

/// Relies on `openxr::sys::Result::into_raw`: hands back the raw result
/// code the runtime produced.
pub assume_specification[ openxr::sys::Result::into_raw ](r: openxr::sys::Result) -> (code: i32);

/// Relies on `openxr::Session::clone`: the handle is reference-counted
/// and shared, not duplicated. Nothing is claimed of the clone.
pub assume_specification<G>[ <openxr::Session<G> as Clone>::clone ](
    session: &openxr::Session<G>,
) -> openxr::Session<G>;

/// Relies on `openxr::FrameStream::begin` (`xrBeginFrame`): opens the
/// frame stream for this frame's submission. The runtime alone decides
/// acceptance; the error carries its result code.
#[verifier::external_body]
pub(crate) fn frame_stream_begin(stream: &mut StreamHandle) -> Result<(), openxr::sys::Result> {
    stream.raw.begin()
}

/// Relies on `openxr::Swapchain::acquire_image`
/// (`xrAcquireSwapchainImage`): asks the runtime for the index of the
/// next image to render to. Nothing is assumed about the returned
/// index; the caller checks it against the texture sequence. The call
/// does not touch the handle's waited flag.
#[verifier::external_body]
pub(crate) fn swapchain_acquire_image(swapchain: &mut SwapchainHandle) -> (r: Result<
    u32,
    openxr::sys::Result,
>)
    ensures
        final(swapchain).image_waited() == old(swapchain).image_waited(),
{
    swapchain.raw.raw.acquire_image()
}

/// Relies on `openxr::Swapchain::wait_image` with
/// `openxr::Duration::INFINITE` (`xrWaitSwapchainImage`): blocks,
/// without bound, until the acquired image is safe to render into —
/// the frame protocol's single blocking point. `wait_image` asserts
/// that no image is already waited, so the contract admits only
/// unwaited handles; the flag is set exactly on success (on a runtime
/// error the call returns before setting it).
#[verifier::external_body]
pub(crate) fn swapchain_wait_image(swapchain: &mut SwapchainHandle) -> (r: Result<
    (),
    openxr::sys::Result,
>)
    requires
        !old(swapchain).image_waited(),
    ensures
        final(swapchain).image_waited() == (r is Ok),
{
    swapchain.raw.raw.wait_image(openxr::Duration::INFINITE)
}

/// Relies on `openxr::Swapchain::release_image`
/// (`xrReleaseSwapchainImage`): hands the image back for display
/// queuing. `release_image` asserts that an image is waited, so the
/// contract admits only waited handles; the flag is cleared exactly on
/// success (on a runtime error the call returns before clearing it).
#[verifier::external_body]
pub(crate) fn swapchain_release_image(swapchain: &mut SwapchainHandle) -> (r: Result<
    (),
    openxr::sys::Result,
>)
    requires
        old(swapchain).image_waited(),
    ensures
        final(swapchain).image_waited() == !(r is Ok),
{
    swapchain.raw.raw.release_image()
}

/// A swapchain texture held non-owning, with the model of its shape:
/// whether it is a 2D array of at least the two stereo eye layers.
/// Only [`stereo_texture`] constructs one, after checking that shape,
/// so the per-eye views at array layers 0 and 1 exist for every value
/// whose model says so.
pub struct StereoTexture {
    raw: crate::store::NonOwned<wgpu::Texture>,
    stereo: bool,
}

impl StereoTexture {
    /// The model of the texture's shape: a 2D array of at least two
    /// layers, as checked at construction.
    pub closed spec fn is_stereo(self) -> bool {
        self.stereo
    }
}

/// Relies on `wgpu::Texture::dimension` and
/// `wgpu::Texture::depth_or_array_layers`: accepts the texture exactly
/// when it is a 2D texture of at least two array layers — the shape of
/// the runtime's stereo swapchain images — and takes it over
/// non-owning.
#[verifier::external_body]
pub fn stereo_texture(texture: wgpu::Texture) -> (r: Option<StereoTexture>)
    ensures
        r matches Some(t) ==> t.is_stereo(),
{
    if texture.dimension() == wgpu::TextureDimension::D2 && texture.depth_or_array_layers() >= 2 {
        Some(StereoTexture { raw: crate::store::NonOwned::new(texture), stereo: true })
    } else {
        None
    }
}

/// Relies on `wgpu::Texture::create_view`: a 2D single-layer view over
/// the given array layer. The texture's checked stereo shape puts both
/// eye layers within its array range, so the view's layer range is
/// valid.
#[verifier::external_body]
pub(crate) fn texture_eye_view(texture: &StereoTexture, base_array_layer: u32) -> wgpu::TextureView
    requires
        texture.is_stereo(),
        base_array_layer < 2,
{
    texture.raw.get().create_view(
        &wgpu::TextureViewDescriptor {
            dimension: Some(wgpu::TextureViewDimension::D2),
            array_layer_count: Some(1),
            base_array_layer,
            ..Default::default()
        },
    )
}

/// Relies on `openxr::CompositionLayerProjectionView`'s builder: the
/// wire form of one per-eye record, carrying the record's pose, field
/// of view, array layer and rectangle over the given swapchain.
#[verifier::external_body]
pub(crate) fn projection_view<'a>(
    swapchain: &'a SwapchainHandle,
    eye: &crate::composition::ProjectedEye,
) -> EyeLayerView<'a> {
    let raw = openxr::CompositionLayerProjectionView::new().pose(eye.pose).fov(eye.fov).sub_image(
        openxr::SwapchainSubImage::new()
            .swapchain(&swapchain.raw.raw)
            .image_array_index(eye.image_array_index)
            .image_rect(
                openxr::Rect2Di {
                    offset: openxr::Offset2Di { x: eye.rect.offset_x, y: eye.rect.offset_y },
                    extent: openxr::Extent2Di { width: eye.rect.width, height: eye.rect.height },
                },
            ),
    );
    EyeLayerView { raw }
}

/// Relies on `openxr::CompositionLayerFlags`' constants: the
/// blend-texture-source-alpha flag when the layer blends by its
/// texture's alpha, the empty flag set otherwise.
#[verifier::external_body]
pub(crate) fn layer_flags_for(blend_texture_source_alpha: bool) -> openxr::CompositionLayerFlags {
    if blend_texture_source_alpha {
        openxr::CompositionLayerFlags::BLEND_TEXTURE_SOURCE_ALPHA
    } else {
        openxr::CompositionLayerFlags::EMPTY
    }
}

/// Relies on `openxr::FrameStream::end` (`xrEndFrame`), which submits
/// the layer array in order, and on the
/// `openxr::CompositionLayerProjection` builder: submits the projection
/// content handed in — preceded by the caller-built passthrough layer
/// when one is supplied, in that order, as the verified plan lays the
/// layers out. The runtime alone decides acceptance; the error carries
/// its result code.
#[verifier::external_body]
pub(crate) fn submit_layers(
    stream: &mut StreamHandle,
    swapchain: &SwapchainHandle,
    display_time: openxr::Time,
    environment_blend_mode: openxr::EnvironmentBlendMode,
    space: &openxr::Space,
    passthrough: Option<&UnderlayLayer<'_>>,
    projection: &crate::composition::ProjectionContent,
) -> Result<(), openxr::sys::Result> {
    let views = [
        projection_view(swapchain, &projection.left).raw,
        projection_view(swapchain, &projection.right).raw,
    ];
    let layer = openxr::CompositionLayerProjection::new()
        .layer_flags(layer_flags_for(projection.blend_texture_source_alpha))
        .space(space)
        .views(&views);
    match passthrough {
        Some(first) => stream.raw.end(display_time, environment_blend_mode, &[first.raw, &layer]),
        None => stream.raw.end(display_time, environment_blend_mode, &[&layer]),
    }
}

/// Relies on `openxr::Session::clone` (the handle is shared, not
/// duplicated) and `openxr::Session::into_any_graphics`: the same
/// session under its backend-erased type.
#[verifier::external_body]
pub(crate) fn session_any_graphics<G>(
    session: &openxr::Session<G>,
) -> openxr::Session<openxr::AnyGraphics> {
    session.clone().into_any_graphics()
}

} // verus!
