//! Resource-lifecycle accounting for the recreation cascade and teardown.
//!
//! Every GPU object the renderer owns is counted here by kind: how many
//! were ever created and how many were destroyed. The cascade that a
//! stale swapchain triggers must destroy the swapchain generation's
//! objects in strict dependency order and rebuild them in the exact
//! reverse order; the ledger records that order in a ghost log and proves
//! that no generation leaks: a new generation is only ever created once
//! the previous one is fully reclaimed.

use vstd::prelude::*;

verus! {

/// One kind of GPU object the renderer owns.
#[derive(Clone, Copy, Debug, PartialEq, Eq, Structural)]
pub enum ResourceKind {
    // Destroyed and recreated with every swapchain generation.
    CommandBuffers,
    UniformBuffers,
    DescriptorPool,
    DepthAttachment,
    ColorAttachment,
    Framebuffers,
    Pipeline,
    PipelineLayout,
    RenderPass,
    ImageViews,
    Swapchain,
    // Static: created once, untouched by the cascade.
    DescriptorSetLayout,
    CommandPool,
    Texture,
    Sampler,
    VertexBuffer,
    IndexBuffer,
    SyncObjects,
}

/// One entry of the cascade log.
#[derive(Clone, Copy, Debug, PartialEq, Eq, Structural)]
pub enum CascadeStep {
    Destroy(ResourceKind),
    Create(ResourceKind),
}

/// Creation and destruction totals for one kind of object.
#[derive(Clone, Copy, Debug, PartialEq, Eq, Structural)]
pub struct Counter {
    pub created: u64,
    pub destroyed: u64,
}

impl Counter {
    /// Objects of this kind currently alive.
    pub open spec fn live(self) -> int {
        self.created - self.destroyed
    }

    /// Nothing is destroyed more than once.
    pub open spec fn wf(self) -> bool {
        self.destroyed <= self.created
    }

    /// This counter after destroying everything alive.
    pub open spec fn drained(self) -> Counter {
        Counter { created: self.created, destroyed: self.created }
    }

    /// This counter after creating `n` more objects.
    pub open spec fn grown(self, n: nat) -> Counter
        recommends
            self.created + n <= u64::MAX,
    {
        Counter { created: (self.created + n) as u64, destroyed: self.destroyed }
    }

    /// A counter with nothing ever created.
    pub fn new() -> (r: Self)
        ensures
            r == (Counter { created: 0u64, destroyed: 0u64 }),
    {
        Counter { created: 0, destroyed: 0 }
    }

    /// Destroys every live object of this kind.
    pub fn drain(&mut self)
        ensures
            *final(self) == old(self).drained(),
    {
        self.destroyed = self.created;
    }

    /// Creates `n` more objects of this kind.
    pub fn grow(&mut self, n: u64)
        requires
            old(self).created + n <= u64::MAX,
        ensures
            *final(self) == old(self).grown(n as nat),
    {
        self.created = self.created + n;
    }
}

/// The renderer's allocation ledger: totals per kind, and the ordered
/// log of every cascade step taken.
#[verifier::ext_equal]
pub struct ResourceLedger {
    pub command_buffers: Counter,
    pub uniform_buffers: Counter,
    pub descriptor_pool: Counter,
    pub depth_attachment: Counter,
    pub color_attachment: Counter,
    pub framebuffers: Counter,
    pub pipeline: Counter,
    pub pipeline_layout: Counter,
    pub render_pass: Counter,
    pub image_views: Counter,
    pub swapchain: Counter,
    pub descriptor_set_layout: Counter,
    pub command_pool: Counter,
    pub texture: Counter,
    pub sampler: Counter,
    pub vertex_buffer: Counter,
    pub index_buffer: Counter,
    pub sync_objects: Counter,
    pub log: Ghost<Seq<CascadeStep>>,
}

/// The order in which a swapchain generation is torn down: each object
/// goes before everything it depends on.
pub open spec fn destroy_cascade_steps() -> Seq<CascadeStep> {
    seq![
        CascadeStep::Destroy(ResourceKind::CommandBuffers),
        CascadeStep::Destroy(ResourceKind::UniformBuffers),
        CascadeStep::Destroy(ResourceKind::DescriptorPool),
        CascadeStep::Destroy(ResourceKind::DepthAttachment),
        CascadeStep::Destroy(ResourceKind::ColorAttachment),
        CascadeStep::Destroy(ResourceKind::Framebuffers),
        CascadeStep::Destroy(ResourceKind::Pipeline),
        CascadeStep::Destroy(ResourceKind::PipelineLayout),
        CascadeStep::Destroy(ResourceKind::RenderPass),
        CascadeStep::Destroy(ResourceKind::ImageViews),
        CascadeStep::Destroy(ResourceKind::Swapchain),
    ]
}

/// The order in which a new swapchain generation is built: the exact
/// reverse of the teardown dependencies.
pub open spec fn create_cascade_steps() -> Seq<CascadeStep> {
    seq![
        CascadeStep::Create(ResourceKind::Swapchain),
        CascadeStep::Create(ResourceKind::ImageViews),
        CascadeStep::Create(ResourceKind::RenderPass),
        CascadeStep::Create(ResourceKind::PipelineLayout),
        CascadeStep::Create(ResourceKind::Pipeline),
        CascadeStep::Create(ResourceKind::ColorAttachment),
        CascadeStep::Create(ResourceKind::DepthAttachment),
        CascadeStep::Create(ResourceKind::Framebuffers),
        CascadeStep::Create(ResourceKind::UniformBuffers),
        CascadeStep::Create(ResourceKind::DescriptorPool),
        CascadeStep::Create(ResourceKind::CommandBuffers),
    ]
}

/// The order in which the static resources are torn down at shutdown,
/// after the swapchain generation is gone.
pub open spec fn destroy_static_steps() -> Seq<CascadeStep> {
    seq![
        CascadeStep::Destroy(ResourceKind::SyncObjects),
        CascadeStep::Destroy(ResourceKind::IndexBuffer),
        CascadeStep::Destroy(ResourceKind::VertexBuffer),
        CascadeStep::Destroy(ResourceKind::DescriptorSetLayout),
        CascadeStep::Destroy(ResourceKind::Sampler),
        CascadeStep::Destroy(ResourceKind::Texture),
        CascadeStep::Destroy(ResourceKind::CommandPool),
    ]
}

impl ResourceLedger {
    /// Every counter is consistent.
    pub open spec fn wf(self) -> bool {
        &&& self.command_buffers.wf()
        &&& self.uniform_buffers.wf()
        &&& self.descriptor_pool.wf()
        &&& self.depth_attachment.wf()
        &&& self.color_attachment.wf()
        &&& self.framebuffers.wf()
        &&& self.pipeline.wf()
        &&& self.pipeline_layout.wf()
        &&& self.render_pass.wf()
        &&& self.image_views.wf()
        &&& self.swapchain.wf()
        &&& self.descriptor_set_layout.wf()
        &&& self.command_pool.wf()
        &&& self.texture.wf()
        &&& self.sampler.wf()
        &&& self.vertex_buffer.wf()
        &&& self.index_buffer.wf()
        &&& self.sync_objects.wf()
    }

    /// No object of the current swapchain generation is alive.
    pub open spec fn swapchain_generation_gone(self) -> bool {
        &&& self.command_buffers.live() == 0
        &&& self.uniform_buffers.live() == 0
        &&& self.descriptor_pool.live() == 0
        &&& self.depth_attachment.live() == 0
        &&& self.color_attachment.live() == 0
        &&& self.framebuffers.live() == 0
        &&& self.pipeline.live() == 0
        &&& self.pipeline_layout.live() == 0
        &&& self.render_pass.live() == 0
        &&& self.image_views.live() == 0
        &&& self.swapchain.live() == 0
    }

    /// A full swapchain generation for `n` images is alive.
    pub open spec fn swapchain_generation_live(self, n: nat) -> bool {
        &&& self.command_buffers.live() == n
        &&& self.uniform_buffers.live() == n
        &&& self.descriptor_pool.live() == 1
        &&& self.depth_attachment.live() == 1
        &&& self.color_attachment.live() == 1
        &&& self.framebuffers.live() == n
        &&& self.pipeline.live() == 1
        &&& self.pipeline_layout.live() == 1
        &&& self.render_pass.live() == 1
        &&& self.image_views.live() == n
        &&& self.swapchain.live() == 1
    }

    /// Room to record one more generation of `n` images without counter
    /// overflow.
    pub open spec fn can_record_generation(self, n: nat) -> bool {
        &&& self.command_buffers.created + n <= u64::MAX
        &&& self.uniform_buffers.created + n <= u64::MAX
        &&& self.descriptor_pool.created + 1 <= u64::MAX
        &&& self.depth_attachment.created + 1 <= u64::MAX
        &&& self.color_attachment.created + 1 <= u64::MAX
        &&& self.framebuffers.created + n <= u64::MAX
        &&& self.pipeline.created + 1 <= u64::MAX
        &&& self.pipeline_layout.created + 1 <= u64::MAX
        &&& self.render_pass.created + 1 <= u64::MAX
        &&& self.image_views.created + n <= u64::MAX
        &&& self.swapchain.created + 1 <= u64::MAX
    }

    /// The ledger after tearing a swapchain generation down.
    pub open spec fn spec_destroy_generation(self) -> ResourceLedger {
        ResourceLedger {
            command_buffers: self.command_buffers.drained(),
            uniform_buffers: self.uniform_buffers.drained(),
            descriptor_pool: self.descriptor_pool.drained(),
            depth_attachment: self.depth_attachment.drained(),
            color_attachment: self.color_attachment.drained(),
            framebuffers: self.framebuffers.drained(),
            pipeline: self.pipeline.drained(),
            pipeline_layout: self.pipeline_layout.drained(),
            render_pass: self.render_pass.drained(),
            image_views: self.image_views.drained(),
            swapchain: self.swapchain.drained(),
            log: Ghost(self.log@ + destroy_cascade_steps()),
            ..self
        }
    }

    /// The ledger after building a new generation for `n` images.
    pub open spec fn spec_create_generation(self, n: nat) -> ResourceLedger
        recommends
            self.can_record_generation(n),
    {
        ResourceLedger {
            command_buffers: self.command_buffers.grown(n),
            uniform_buffers: self.uniform_buffers.grown(n),
            descriptor_pool: self.descriptor_pool.grown(1),
            depth_attachment: self.depth_attachment.grown(1),
            color_attachment: self.color_attachment.grown(1),
            framebuffers: self.framebuffers.grown(n),
            pipeline: self.pipeline.grown(1),
            pipeline_layout: self.pipeline_layout.grown(1),
            render_pass: self.render_pass.grown(1),
            image_views: self.image_views.grown(n),
            swapchain: self.swapchain.grown(1),
            log: Ghost(self.log@ + create_cascade_steps()),
            ..self
        }
    }

    /// The ledger after a full recreation cascade: teardown, then the
    /// new generation.
    pub open spec fn spec_recreate(self, n: nat) -> ResourceLedger {
        self.spec_destroy_generation().spec_create_generation(n)
    }

    /// A ledger with nothing ever created and an empty log.
    pub fn new() -> (r: Self)
        ensures
            r.wf(),
            r.swapchain_generation_gone(),
            r.log@ == Seq::<CascadeStep>::empty(),
            r.command_buffers == (Counter { created: 0u64, destroyed: 0u64 }),
            r.uniform_buffers == (Counter { created: 0u64, destroyed: 0u64 }),
            r.descriptor_pool == (Counter { created: 0u64, destroyed: 0u64 }),
            r.depth_attachment == (Counter { created: 0u64, destroyed: 0u64 }),
            r.color_attachment == (Counter { created: 0u64, destroyed: 0u64 }),
            r.framebuffers == (Counter { created: 0u64, destroyed: 0u64 }),
            r.pipeline == (Counter { created: 0u64, destroyed: 0u64 }),
            r.pipeline_layout == (Counter { created: 0u64, destroyed: 0u64 }),
            r.render_pass == (Counter { created: 0u64, destroyed: 0u64 }),
            r.image_views == (Counter { created: 0u64, destroyed: 0u64 }),
            r.swapchain == (Counter { created: 0u64, destroyed: 0u64 }),
            r.descriptor_set_layout == (Counter { created: 0u64, destroyed: 0u64 }),
            r.command_pool == (Counter { created: 0u64, destroyed: 0u64 }),
            r.texture == (Counter { created: 0u64, destroyed: 0u64 }),
            r.sampler == (Counter { created: 0u64, destroyed: 0u64 }),
            r.vertex_buffer == (Counter { created: 0u64, destroyed: 0u64 }),
            r.index_buffer == (Counter { created: 0u64, destroyed: 0u64 }),
            r.sync_objects == (Counter { created: 0u64, destroyed: 0u64 }),
    {
        ResourceLedger {
            command_buffers: Counter::new(),
            uniform_buffers: Counter::new(),
            descriptor_pool: Counter::new(),
            depth_attachment: Counter::new(),
            color_attachment: Counter::new(),
            framebuffers: Counter::new(),
            pipeline: Counter::new(),
            pipeline_layout: Counter::new(),
            render_pass: Counter::new(),
            image_views: Counter::new(),
            swapchain: Counter::new(),
            descriptor_set_layout: Counter::new(),
            command_pool: Counter::new(),
            texture: Counter::new(),
            sampler: Counter::new(),
            vertex_buffer: Counter::new(),
            index_buffer: Counter::new(),
            sync_objects: Counter::new(),
            log: Ghost(Seq::empty()),
        }
    }

    /// Records the teardown of the current swapchain generation, in the
    /// dependency order the cascade prescribes.
    pub fn destroy_generation(&mut self)
        ensures
            *final(self) == old(self).spec_destroy_generation(),
    {
        self.command_buffers.drain();
        proof {
            self.log@ = self.log@ + seq![CascadeStep::Destroy(ResourceKind::CommandBuffers)];
        }
        self.uniform_buffers.drain();
        proof {
            self.log@ = self.log@ + seq![CascadeStep::Destroy(ResourceKind::UniformBuffers)];
        }
        self.descriptor_pool.drain();
        proof {
            self.log@ = self.log@ + seq![CascadeStep::Destroy(ResourceKind::DescriptorPool)];
        }
        self.depth_attachment.drain();
        proof {
            self.log@ = self.log@ + seq![CascadeStep::Destroy(ResourceKind::DepthAttachment)];
        }
        self.color_attachment.drain();
        proof {
            self.log@ = self.log@ + seq![CascadeStep::Destroy(ResourceKind::ColorAttachment)];
        }
        self.framebuffers.drain();
        proof {
            self.log@ = self.log@ + seq![CascadeStep::Destroy(ResourceKind::Framebuffers)];
        }
        self.pipeline.drain();
        proof {
            self.log@ = self.log@ + seq![CascadeStep::Destroy(ResourceKind::Pipeline)];
        }
        self.pipeline_layout.drain();
        proof {
            self.log@ = self.log@ + seq![CascadeStep::Destroy(ResourceKind::PipelineLayout)];
        }
        self.render_pass.drain();
        proof {
            self.log@ = self.log@ + seq![CascadeStep::Destroy(ResourceKind::RenderPass)];
        }
        self.image_views.drain();
        proof {
            self.log@ = self.log@ + seq![CascadeStep::Destroy(ResourceKind::ImageViews)];
        }
        self.swapchain.drain();
        proof {
            self.log@ = self.log@ + seq![CascadeStep::Destroy(ResourceKind::Swapchain)];
            assert(self.log@ =~= old(self).log@ + destroy_cascade_steps());
            assert(*self =~= old(self).spec_destroy_generation());
        }
    }

    /// Records the construction of a new swapchain generation for
    /// `image_count` images, in the reverse of the teardown order. The
    /// previous generation must be fully reclaimed first: this is what
    /// rules a leak out.
    pub fn create_generation(&mut self, image_count: usize)
        requires
            old(self).swapchain_generation_gone(),
            old(self).can_record_generation(image_count as nat),
        ensures
            *final(self) == old(self).spec_create_generation(image_count as nat),
    {
        let n = image_count as u64;
        self.swapchain.grow(1);
        proof {
            self.log@ = self.log@ + seq![CascadeStep::Create(ResourceKind::Swapchain)];
        }
        self.image_views.grow(n);
        proof {
            self.log@ = self.log@ + seq![CascadeStep::Create(ResourceKind::ImageViews)];
        }
        self.render_pass.grow(1);
        proof {
            self.log@ = self.log@ + seq![CascadeStep::Create(ResourceKind::RenderPass)];
        }
        self.pipeline_layout.grow(1);
        proof {
            self.log@ = self.log@ + seq![CascadeStep::Create(ResourceKind::PipelineLayout)];
        }
        self.pipeline.grow(1);
        proof {
            self.log@ = self.log@ + seq![CascadeStep::Create(ResourceKind::Pipeline)];
        }
        self.color_attachment.grow(1);
        proof {
            self.log@ = self.log@ + seq![CascadeStep::Create(ResourceKind::ColorAttachment)];
        }
        self.depth_attachment.grow(1);
        proof {
            self.log@ = self.log@ + seq![CascadeStep::Create(ResourceKind::DepthAttachment)];
        }
        self.framebuffers.grow(n);
        proof {
            self.log@ = self.log@ + seq![CascadeStep::Create(ResourceKind::Framebuffers)];
        }
        self.uniform_buffers.grow(n);
        proof {
            self.log@ = self.log@ + seq![CascadeStep::Create(ResourceKind::UniformBuffers)];
        }
        self.descriptor_pool.grow(1);
        proof {
            self.log@ = self.log@ + seq![CascadeStep::Create(ResourceKind::DescriptorPool)];
        }
        self.command_buffers.grow(n);
        proof {
            self.log@ = self.log@ + seq![CascadeStep::Create(ResourceKind::CommandBuffers)];
            assert(self.log@ =~= old(self).log@ + create_cascade_steps());
            assert(*self =~= old(self).spec_create_generation(image_count as nat));
        }
    }

    /// The full recreation cascade: teardown in dependency order, then
    /// the new generation in reverse order.
    pub fn recreate_generation(&mut self, image_count: usize)
        requires
            old(self).wf(),
            old(self).spec_destroy_generation().can_record_generation(image_count as nat),
        ensures
            *final(self) == old(self).spec_recreate(image_count as nat),
            final(self).wf(),
            final(self).swapchain_generation_live(image_count as nat),
            final(self).log@ == old(self).log@ + destroy_cascade_steps() + create_cascade_steps(),
    {
        self.destroy_generation();
        self.create_generation(image_count);
        proof {
            assert(final(self).log@ =~= old(self).log@ + destroy_cascade_steps()
                + create_cascade_steps());
        }
    }

    /// Records the shutdown teardown of the static resources; the
    /// swapchain generation must already be gone.
    pub fn destroy_static(&mut self)
        requires
            old(self).wf(),
            old(self).swapchain_generation_gone(),
        ensures
            final(self).wf(),
            final(self).swapchain_generation_gone(),
            final(self).sync_objects == old(self).sync_objects.drained(),
            final(self).index_buffer == old(self).index_buffer.drained(),
            final(self).vertex_buffer == old(self).vertex_buffer.drained(),
            final(self).descriptor_set_layout == old(self).descriptor_set_layout.drained(),
            final(self).sampler == old(self).sampler.drained(),
            final(self).texture == old(self).texture.drained(),
            final(self).command_pool == old(self).command_pool.drained(),
            final(self).command_buffers == old(self).command_buffers,
            final(self).uniform_buffers == old(self).uniform_buffers,
            final(self).descriptor_pool == old(self).descriptor_pool,
            final(self).depth_attachment == old(self).depth_attachment,
            final(self).color_attachment == old(self).color_attachment,
            final(self).framebuffers == old(self).framebuffers,
            final(self).pipeline == old(self).pipeline,
            final(self).pipeline_layout == old(self).pipeline_layout,
            final(self).render_pass == old(self).render_pass,
            final(self).image_views == old(self).image_views,
            final(self).swapchain == old(self).swapchain,
            final(self).log@ == old(self).log@ + destroy_static_steps(),
    {
        self.sync_objects.drain();
        proof {
            self.log@ = self.log@ + seq![CascadeStep::Destroy(ResourceKind::SyncObjects)];
        }
        self.index_buffer.drain();
        proof {
            self.log@ = self.log@ + seq![CascadeStep::Destroy(ResourceKind::IndexBuffer)];
        }
        self.vertex_buffer.drain();
        proof {
            self.log@ = self.log@ + seq![CascadeStep::Destroy(ResourceKind::VertexBuffer)];
        }
        self.descriptor_set_layout.drain();
        proof {
            self.log@ = self.log@ + seq![CascadeStep::Destroy(ResourceKind::DescriptorSetLayout)];
        }
        self.sampler.drain();
        proof {
            self.log@ = self.log@ + seq![CascadeStep::Destroy(ResourceKind::Sampler)];
        }
        self.texture.drain();
        proof {
            self.log@ = self.log@ + seq![CascadeStep::Destroy(ResourceKind::Texture)];
        }
        self.command_pool.drain();
        proof {
            self.log@ = self.log@ + seq![CascadeStep::Destroy(ResourceKind::CommandPool)];
            assert(self.log@ =~= old(self).log@ + destroy_static_steps());
        }
    }

    /// How many swapchains are currently alive.
    pub fn live_swapchains(&self) -> (r: u64)
        requires
            self.wf(),
        ensures
            r == self.swapchain.live(),
    {
        self.swapchain.created - self.swapchain.destroyed
    }

    /// How many framebuffers are currently alive.
    pub fn live_framebuffers(&self) -> (r: u64)
        requires
            self.wf(),
        ensures
            r == self.framebuffers.live(),
    {
        self.framebuffers.created - self.framebuffers.destroyed
    }

    /// How many swapchain image views are currently alive.
    pub fn live_image_views(&self) -> (r: u64)
        requires
            self.wf(),
        ensures
            r == self.image_views.live(),
    {
        self.image_views.created - self.image_views.destroyed
    }
}

/// Two back-to-back recreation cascades leave exactly one live swapchain
/// and exactly the new generation's framebuffers and image views: the
/// first generation and the intermediate one are both fully reclaimed,
/// so nothing leaks.
pub proof fn lemma_double_recreation_leaks_nothing(l: ResourceLedger, n1: nat, n2: nat)
    requires
        l.wf(),
        l.spec_destroy_generation().can_record_generation(n1),
        l.spec_recreate(n1).spec_destroy_generation().can_record_generation(n2),
    ensures
        l.spec_recreate(n1).spec_recreate(n2).wf(),
        l.spec_recreate(n1).spec_recreate(n2).swapchain.live() == 1,
        l.spec_recreate(n1).spec_recreate(n2).framebuffers.live() == n2,
        l.spec_recreate(n1).spec_recreate(n2).image_views.live() == n2,
        l.spec_recreate(n1).spec_recreate(n2).swapchain.destroyed
            == l.spec_recreate(n1).swapchain.created,
        l.spec_recreate(n1).spec_recreate(n2).framebuffers.destroyed
            == l.spec_recreate(n1).framebuffers.created,
        l.spec_recreate(n1).spec_recreate(n2).image_views.destroyed
            == l.spec_recreate(n1).image_views.created,
{
}

} // verus!
