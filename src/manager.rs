use vstd::prelude::*;

use crate::error::SwapchainError;
use crate::negotiate::{
    negotiate,
    negotiation_error,
    is_negotiated,
    Extent2D,
    QueueFamilyIndices,
    SurfaceCapabilities,
    SurfaceFormat,
    SwapChainSupportDetail,
    SwapchainConfig,
};

verus! {

/// Where a manager stands in the life of its presentable image chain.
#[derive(Clone, Copy, Debug, PartialEq, Eq, Structural)]
pub enum ChainState {
    Uninitialized,
    Created,
    Invalidated,
    Destroyed,
}

/// Owns the presentable image chain of one surface and decides its creation,
/// invalidation, recreation and destruction.
///
/// The platform work (allocating and releasing the chain) is done by the caller:
/// `create_swapchain` and `recreate` hand out the configuration to allocate,
/// `install_swapchain` takes back what the platform gave, and `recreate` and
/// `destroy` hand out the handle of the chain that must now be released.
pub struct VkSpawChain {
    state: ChainState,
    queue_family: QueueFamilyIndices,
    pending: Option<(SurfaceFormat, Extent2D)>,
    swapchain: Option<u64>,
    swapchain_images: Vec<u64>,
    swapchain_format: SurfaceFormat,
    swapchain_extent: Extent2D,
}

impl VkSpawChain {
    pub closed spec fn chain_state(&self) -> ChainState {
        self.state
    }

    /// The queue families that every negotiation of this manager uses.
    pub closed spec fn queue_family(&self) -> QueueFamilyIndices {
        self.queue_family
    }

    /// The format and extent of a negotiated chain that awaits allocation.
    pub closed spec fn pending(&self) -> Option<(SurfaceFormat, Extent2D)> {
        self.pending
    }

    /// The platform handle of the live chain, if one is held.
    pub closed spec fn handle(&self) -> Option<u64> {
        self.swapchain
    }

    pub closed spec fn images(&self) -> Seq<u64> {
        self.swapchain_images@
    }

    pub closed spec fn format(&self) -> SurfaceFormat {
        self.swapchain_format
    }

    pub closed spec fn extent(&self) -> Extent2D {
        self.swapchain_extent
    }

    /// A live chain is held exactly in `Created`, and in `Invalidated` until
    /// recreation releases it; images exist only with a live chain; a pending
    /// configuration is never held beside a live chain.
    pub closed spec fn wf(&self) -> bool {
        &&& (self.swapchain is None ==> self.swapchain_images@.len() == 0)
        &&& (self.pending is Some ==> self.swapchain is None)
        &&& match self.state {
            ChainState::Uninitialized => self.swapchain is None,
            ChainState::Created => self.swapchain is Some && self.pending is None,
            ChainState::Invalidated => self.swapchain is Some || self.pending is Some,
            ChainState::Destroyed => self.swapchain is None && self.pending is None,
        }
    }

    /// A manager that holds no chain yet.
    pub fn new(queue_family: QueueFamilyIndices) -> (r: Self)
        ensures
            r.wf(),
            r.chain_state() == ChainState::Uninitialized,
            r.queue_family() == queue_family,
            r.pending() is None,
            r.handle() is None,
            r.images().len() == 0,
    {
        VkSpawChain {
            state: ChainState::Uninitialized,
            queue_family,
            pending: None,
            swapchain: None,
            swapchain_images: Vec::new(),
            swapchain_format: SurfaceFormat { format: 0, color_space: 0 },
            swapchain_extent: Extent2D { width: 0, height: 0 },
        }
    }

    /// Gathers the three answers of a capability query; any answer that the
    /// platform could not give makes the whole query fail.
    pub fn query_swapchain_support(
        capabilities: Option<SurfaceCapabilities>,
        formats: Option<Vec<SurfaceFormat>>,
        present_modes: Option<Vec<i32>>,
    ) -> (r: Result<SwapChainSupportDetail, SwapchainError>)
        ensures
            capabilities is Some && formats is Some && present_modes is Some ==> r is Ok
                && r->Ok_0.capabilities == capabilities->Some_0 && r->Ok_0.formats@
                == formats->Some_0@ && r->Ok_0.present_modes@ == present_modes->Some_0@,
            !(capabilities is Some && formats is Some && present_modes is Some) ==> r is Err
                && r->Err_0 == SwapchainError::QueryError,
    {
        match (capabilities, formats, present_modes) {
            (Some(capabilities), Some(formats), Some(present_modes)) => Ok(
                SwapChainSupportDetail { capabilities, formats, present_modes },
            ),
            _ => Err(SwapchainError::QueryError),
        }
    }

    pub fn state(&self) -> (r: ChainState)
        ensures
            r == self.chain_state(),
    {
        self.state
    }

    /// First step of creation: negotiates the configuration that the caller is
    /// to allocate, and holds its format and extent until `install_swapchain`.
    /// Allowed only once, from `Uninitialized`; a failed negotiation leaves the
    /// manager `Destroyed`.
    pub fn create_swapchain(
        &mut self,
        support: &SwapChainSupportDetail,
        width: u32,
        height: u32,
    ) -> (r: Result<SwapchainConfig, SwapchainError>)
        requires
            old(self).wf(),
        ensures
            final(self).wf(),
            final(self).queue_family() == old(self).queue_family(),
            final(self).handle() == old(self).handle(),
            final(self).images() == old(self).images(),
            !(old(self).chain_state() == ChainState::Uninitialized && old(self).pending() is None)
                ==> r == Err::<SwapchainConfig, SwapchainError>(SwapchainError::InvalidStateError)
                && *final(self) == *old(self),
            old(self).chain_state() == ChainState::Uninitialized && old(self).pending() is None
                ==> match negotiation_error(*support, old(self).queue_family()) {
                Some(e) => r is Err && r->Err_0 == e && final(self).chain_state()
                    == ChainState::Destroyed && final(self).pending() is None,
                None => r is Ok && is_negotiated(
                    r->Ok_0,
                    *support,
                    old(self).queue_family(),
                    width,
                    height,
                ) && final(self).chain_state() == ChainState::Uninitialized && final(self).pending()
                    == Some((r->Ok_0.format, r->Ok_0.extent)),
            },
    {
        if self.state != ChainState::Uninitialized || self.pending.is_some() {
            return Err(SwapchainError::InvalidStateError);
        }
        match negotiate(support, &self.queue_family, width, height) {
            Ok(config) => {
                self.pending = Some((config.format, config.extent));
                Ok(config)
            },
            Err(e) => {
                self.state = ChainState::Destroyed;
                Err(e)
            },
        }
    }

    /// Last step of creation and recreation: takes what the platform gave for the
    /// pending configuration, a chain handle and its images, or `None` where it
    /// refused. On success the manager is `Created` with the pending format and
    /// extent; on refusal it is `Destroyed` and reports a creation error (from a
    /// first creation) or a recreation error.
    pub fn install_swapchain(&mut self, allocation: Option<(u64, Vec<u64>)>) -> (r: Result<
        (),
        SwapchainError,
    >)
        requires
            old(self).wf(),
        ensures
            final(self).wf(),
            final(self).queue_family() == old(self).queue_family(),
            old(self).pending() is None ==> r == Err::<(), SwapchainError>(
                SwapchainError::InvalidStateError,
            ) && *final(self) == *old(self),
            old(self).pending() is Some ==> final(self).pending() is None && match allocation {
                Some(a) => r is Ok && final(self).chain_state() == ChainState::Created
                    && final(self).handle() == Some(a.0) && final(self).images() == a.1@
                    && final(self).format() == old(self).pending()->Some_0.0
                    && final(self).extent() == old(self).pending()->Some_0.1,
                None => r is Err && r->Err_0 == (if old(self).chain_state()
                    == ChainState::Uninitialized {
                    SwapchainError::CreationError
                } else {
                    SwapchainError::RecreationError
                }) && final(self).chain_state() == ChainState::Destroyed && final(self).handle()
                    is None && final(self).images().len() == 0,
            },
    {
        let (format, extent) = match self.pending {
            Some(p) => p,
            None => return Err(SwapchainError::InvalidStateError),
        };
        self.pending = None;
        match allocation {
            Some((handle, images)) => {
                self.state = ChainState::Created;
                self.swapchain = Some(handle);
                self.swapchain_images = images;
                self.swapchain_format = format;
                self.swapchain_extent = extent;
                Ok(())
            },
            None => {
                let first = self.state == ChainState::Uninitialized;
                self.state = ChainState::Destroyed;
                if first {
                    Err(SwapchainError::CreationError)
                } else {
                    Err(SwapchainError::RecreationError)
                }
            },
        }
    }

    /// Records that the surface no longer suits the chain; the chain is kept
    /// until `recreate` or `destroy`. Allowed only from `Created`.
    pub fn mark_invalidated(&mut self) -> (r: Result<(), SwapchainError>)
        requires
            old(self).wf(),
        ensures
            final(self).wf(),
            old(self).chain_state() == ChainState::Created ==> r is Ok
                && final(self).chain_state() == ChainState::Invalidated
                && final(self).handle() == old(self).handle()
                && final(self).images() == old(self).images()
                && final(self).format() == old(self).format()
                && final(self).extent() == old(self).extent()
                && final(self).pending() == old(self).pending()
                && final(self).queue_family() == old(self).queue_family(),
            old(self).chain_state() != ChainState::Created ==> r == Err::<(), SwapchainError>(
                SwapchainError::InvalidStateError,
            ) && *final(self) == *old(self),
    {
        if self.state != ChainState::Created {
            return Err(SwapchainError::InvalidStateError);
        }
        self.state = ChainState::Invalidated;
        Ok(())
    }

    /// First step of recreation, from `Created` or `Invalidated` with a live
    /// chain: gives up the old chain, whose handle is returned for the caller to
    /// release before allocating anew, and negotiates again with the same queue
    /// families. The manager stays `Invalidated` until `install_swapchain`; a
    /// failed negotiation leaves it `Destroyed` with a recreation error.
    pub fn recreate(&mut self, support: &SwapChainSupportDetail, width: u32, height: u32) -> (r: (
        Option<u64>,
        Result<SwapchainConfig, SwapchainError>,
    ))
        requires
            old(self).wf(),
        ensures
            final(self).wf(),
            final(self).queue_family() == old(self).queue_family(),
            !((old(self).chain_state() == ChainState::Created || old(self).chain_state()
                == ChainState::Invalidated) && old(self).handle() is Some) ==> r.0 is None
                && r.1 == Err::<SwapchainConfig, SwapchainError>(SwapchainError::InvalidStateError)
                && *final(self) == *old(self),
            (old(self).chain_state() == ChainState::Created || old(self).chain_state()
                == ChainState::Invalidated) && old(self).handle() is Some ==> r.0 == old(
                self,
            ).handle() && final(self).handle() is None && final(self).images().len() == 0
                && match negotiation_error(*support, old(self).queue_family()) {
                Some(e) => r.1 == Err::<SwapchainConfig, SwapchainError>(
                    SwapchainError::RecreationError,
                ) && final(self).chain_state() == ChainState::Destroyed,
                None => r.1 is Ok && is_negotiated(
                    r.1->Ok_0,
                    *support,
                    old(self).queue_family(),
                    width,
                    height,
                ) && final(self).chain_state() == ChainState::Invalidated && final(self).pending()
                    == Some((r.1->Ok_0.format, r.1->Ok_0.extent)),
            },
    {
        if !((self.state == ChainState::Created || self.state == ChainState::Invalidated)
            && self.swapchain.is_some()) {
            return (None, Err(SwapchainError::InvalidStateError));
        }
        let released = self.swapchain;
        self.swapchain = None;
        self.swapchain_images = Vec::new();
        match negotiate(support, &self.queue_family, width, height) {
            Ok(config) => {
                self.state = ChainState::Invalidated;
                self.pending = Some((config.format, config.extent));
                (released, Ok(config))
            },
            Err(_) => {
                self.state = ChainState::Destroyed;
                (released, Err(SwapchainError::RecreationError))
            },
        }
    }

    /// Ends the manager's life from any state and returns the handle of the
    /// chain that the caller must release, if one was held. A second call does
    /// nothing and returns `None`.
    pub fn destroy(&mut self) -> (r: Option<u64>)
        requires
            old(self).wf(),
        ensures
            final(self).wf(),
            r == old(self).handle(),
            final(self).chain_state() == ChainState::Destroyed,
            final(self).handle() is None,
            final(self).pending() is None,
            final(self).images().len() == 0,
            final(self).queue_family() == old(self).queue_family(),
            old(self).chain_state() == ChainState::Destroyed ==> *final(self) == *old(self),
    {
        if self.state == ChainState::Destroyed {
            return None;
        }
        let released = self.swapchain;
        self.state = ChainState::Destroyed;
        self.swapchain = None;
        self.pending = None;
        self.swapchain_images = Vec::new();
        released
    }

    /// The chain's images, in the platform's order; only in `Created`.
    pub fn current_images(&self) -> (r: Result<&Vec<u64>, SwapchainError>)
        ensures
            self.chain_state() == ChainState::Created ==> r is Ok && r->Ok_0@ == self.images(),
            self.chain_state() != ChainState::Created ==> r is Err && r->Err_0
                == SwapchainError::InvalidStateError,
    {
        if self.state == ChainState::Created {
            Ok(&self.swapchain_images)
        } else {
            Err(SwapchainError::InvalidStateError)
        }
    }

    /// The chain's format; only in `Created`.
    pub fn current_format(&self) -> (r: Result<SurfaceFormat, SwapchainError>)
        ensures
            r == (if self.chain_state() == ChainState::Created {
                Ok(self.format())
            } else {
                Err(SwapchainError::InvalidStateError)
            }),
    {
        if self.state == ChainState::Created {
            Ok(self.swapchain_format)
        } else {
            Err(SwapchainError::InvalidStateError)
        }
    }

    /// The chain's extent; only in `Created`.
    pub fn current_extent(&self) -> (r: Result<Extent2D, SwapchainError>)
        ensures
            r == (if self.chain_state() == ChainState::Created {
                Ok(self.extent())
            } else {
                Err(SwapchainError::InvalidStateError)
            }),
    {
        if self.state == ChainState::Created {
            Ok(self.swapchain_extent)
        } else {
            Err(SwapchainError::InvalidStateError)
        }
    }
}

} // verus!
