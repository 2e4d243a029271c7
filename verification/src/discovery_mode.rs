use vstd::prelude::*;

verus! {

/// How the decoder of a device is chosen.
#[derive(Debug)]
pub enum DiscoveryMode {
    /// Probe the registered decoders.
    Auto,
    /// Use the decoder of this name.
    Configured(String),
}

/// The mathematical value of a [`DiscoveryMode`].
pub enum DiscoveryModeView {
    Auto,
    Configured(Seq<char>),
}

impl View for DiscoveryMode {
    type V = DiscoveryModeView;

    open spec fn view(&self) -> DiscoveryModeView {
        match self {
            DiscoveryMode::Auto => DiscoveryModeView::Auto,
            DiscoveryMode::Configured(name) => DiscoveryModeView::Configured(name@),
        }
    }
}

impl Clone for DiscoveryMode {
    fn clone(&self) -> (r: DiscoveryMode)
        ensures
            r@ == self@,
    {
        match self {
            DiscoveryMode::Auto => DiscoveryMode::Auto,
            DiscoveryMode::Configured(name) => DiscoveryMode::Configured(name.clone()),
        }
    }
}

impl Default for DiscoveryMode {
    fn default() -> (r: DiscoveryMode)
        ensures
            r@ == DiscoveryModeView::Auto,
    {
        DiscoveryMode::Auto
    }
}

} // verus!
