//! GPU context model: swap-chain and debug-buffer configuration, the
//! startup order of resource acquisition, and the fixed parameters of
//! adapter and device negotiation. The actual GPU backend performs the
//! calls; this module fixes, as plain values, what every call must be
//! given and in which order the calls happen.

use vstd::prelude::*;

verus! {

/// The one color format the host renders in.
#[derive(Clone, Copy, Debug, PartialEq, Eq, Structural)]
pub enum TextureFormat {
    Bgra8UnormSrgb,
}

/// The one presentation mode the host uses: blocking ("fifo").
#[derive(Clone, Copy, Debug, PartialEq, Eq, Structural)]
pub enum PresentMode {
    Fifo,
}

/// Usage the swap-chain images are created with.
#[derive(Clone, Copy, Debug, PartialEq, Eq, Structural)]
pub enum TextureUsage {
    OutputAttachment,
}

/// Adapter preference of the host: a low-power adapter compatible with
/// the window surface.
#[derive(Clone, Copy, Debug, PartialEq, Eq, Structural)]
pub enum PowerPreference {
    LowPower,
}

/// Everything the swap-chain is created from.
#[derive(Clone, Copy, Debug, PartialEq, Eq, Structural)]
pub struct SwapChainSpec {
    pub usage: TextureUsage,
    pub format: TextureFormat,
    /// Width in physical pixels.
    pub width: u32,
    /// Height in physical pixels.
    pub height: u32,
    pub present_mode: PresentMode,
}

/// The swap-chain configuration for a window of `width` by `height`
/// physical pixels: exactly those dimensions, with the fixed color
/// format and blocking presentation.
pub open spec fn swap_chain_spec_of(width: u32, height: u32) -> SwapChainSpec {
    SwapChainSpec {
        usage: TextureUsage::OutputAttachment,
        format: TextureFormat::Bgra8UnormSrgb,
        width,
        height,
        present_mode: PresentMode::Fifo,
    }
}

/// Computes the swap-chain configuration for a window of `width` by
/// `height` physical pixels: exactly those dimensions, no scaling or
/// rounding.
pub fn swap_chain_spec(width: u32, height: u32) -> (s: SwapChainSpec)
    ensures
        s == swap_chain_spec_of(width, height),
{
    SwapChainSpec {
        usage: TextureUsage::OutputAttachment,
        format: TextureFormat::Bgra8UnormSrgb,
        width,
        height,
        present_mode: PresentMode::Fifo,
    }
}

/// An opaque color, eight bits per channel.
#[derive(Clone, Copy, Debug, PartialEq, Eq, Structural)]
pub struct Rgba {
    pub red: u8,
    pub green: u8,
    pub blue: u8,
    pub alpha: u8,
}

/// The fixed clear color of the UI draw pass: opaque black.
pub open spec fn black() -> Rgba {
    Rgba { red: 0, green: 0, blue: 0, alpha: 255 }
}

/// Size in bytes of the fixed debug storage buffer.
pub const DEBUG_BUFFER_SIZE: u64 = 16;

/// Everything the debug storage buffer is created from: a fixed-size
/// buffer for shader-stage storage, not mapped at creation, never
/// resized.
#[derive(Clone, Copy, Debug, PartialEq, Eq, Structural)]
pub struct DebugBufferSpec {
    pub size_bytes: u64,
    pub storage_usage: bool,
    pub mapped_at_creation: bool,
}

/// The debug storage buffer configuration: sixteen bytes of storage,
/// unmapped at creation.
pub fn debug_buffer_spec() -> (b: DebugBufferSpec)
    ensures
        b == (DebugBufferSpec {
            size_bytes: DEBUG_BUFFER_SIZE,
            storage_usage: true,
            mapped_at_creation: false,
        }),
{
    DebugBufferSpec { size_bytes: DEBUG_BUFFER_SIZE, storage_usage: true, mapped_at_creation: false }
}

/// Everything the debug buffer's single binding is created from: the
/// slot it occupies, the shader stage it is visible to, and the
/// storage-buffer binding type parameters.
#[derive(Clone, Copy, Debug, PartialEq, Eq, Structural)]
pub struct DebugBindingSpec {
    pub binding_slot: u32,
    pub vertex_visible: bool,
    pub dynamic_offset: bool,
    pub read_only: bool,
    pub min_binding_size: u64,
}

/// The debug buffer's binding: slot zero, vertex-stage visibility,
/// writable storage with a fixed minimum size of sixteen bytes.
pub fn debug_binding_spec() -> (b: DebugBindingSpec)
    ensures
        b == (DebugBindingSpec {
            binding_slot: 0,
            vertex_visible: true,
            dynamic_offset: false,
            read_only: false,
            min_binding_size: DEBUG_BUFFER_SIZE,
        }),
{
    DebugBindingSpec {
        binding_slot: 0,
        vertex_visible: true,
        dynamic_offset: false,
        read_only: false,
        min_binding_size: DEBUG_BUFFER_SIZE,
    }
}

/// One resource-acquisition step of GPU context startup.
#[derive(Clone, Copy, Debug, PartialEq, Eq, Structural)]
pub enum StartupStep {
    /// Create the GPU API instance, restricted to a single backend.
    CreateInstance,
    /// Create the rendering surface bound to the window.
    CreateSurface,
    /// Request a surface-compatible, low-power physical adapter.
    RequestAdapter,
    /// Request the logical device and command queue.
    RequestDevice,
    /// Create the swap-chain, sized to the window's physical pixels.
    CreateSwapChain,
    /// Allocate the debug storage buffer, its bind group and the
    /// pipeline layout.
    CreateDebugResources,
}

/// The strict order in which GPU context startup acquires its
/// resources; no step may run before the one preceding it.
pub fn startup_sequence() -> (s: Vec<StartupStep>)
    ensures
        s@ == seq![
            StartupStep::CreateInstance,
            StartupStep::CreateSurface,
            StartupStep::RequestAdapter,
            StartupStep::RequestDevice,
            StartupStep::CreateSwapChain,
            StartupStep::CreateDebugResources,
        ],
{
    let mut s: Vec<StartupStep> = Vec::new();
    s.push(StartupStep::CreateInstance);
    s.push(StartupStep::CreateSurface);
    s.push(StartupStep::RequestAdapter);
    s.push(StartupStep::RequestDevice);
    s.push(StartupStep::CreateSwapChain);
    s.push(StartupStep::CreateDebugResources);
    assert(s@ =~= seq![
        StartupStep::CreateInstance,
        StartupStep::CreateSurface,
        StartupStep::RequestAdapter,
        StartupStep::RequestDevice,
        StartupStep::CreateSwapChain,
        StartupStep::CreateDebugResources,
    ]);
    s
}

/// Everything adapter negotiation is asked for: power preference and
/// surface compatibility.
#[derive(Clone, Copy, Debug, PartialEq, Eq, Structural)]
pub struct AdapterRequestSpec {
    pub power: PowerPreference,
    pub compatible_with_surface: bool,
}

/// The adapter request: prefer a low-power adapter compatible with the
/// window surface.
pub fn adapter_request_spec() -> (a: AdapterRequestSpec)
    ensures
        a == (AdapterRequestSpec { power: PowerPreference::LowPower, compatible_with_surface: true }),
{
    AdapterRequestSpec { power: PowerPreference::LowPower, compatible_with_surface: true }
}

/// Everything device negotiation is asked for: default feature and
/// limit sets, with shader validation enabled.
#[derive(Clone, Copy, Debug, PartialEq, Eq, Structural)]
pub struct DeviceRequestSpec {
    pub default_features: bool,
    pub default_limits: bool,
    pub shader_validation: bool,
}

/// The device request: default features and limits, shader validation
/// on.
pub fn device_request_spec() -> (d: DeviceRequestSpec)
    ensures
        d == (DeviceRequestSpec { default_features: true, default_limits: true, shader_validation: true }),
{
    DeviceRequestSpec { default_features: true, default_limits: true, shader_validation: true }
}

} // verus!
