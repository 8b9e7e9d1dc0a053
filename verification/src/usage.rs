//! What a texture or a buffer may be used for.

use vstd::prelude::*;

verus! {

/// One permitted use of a texture.
#[derive(Clone, Copy, Debug, Hash, PartialEq, Eq, Structural)]
pub enum TextureUsage {
    /// The texture may be the source of a copy.
    CopySrc,
    /// The texture may be the destination of a copy or of a queue write.
    CopyDst,
    /// The texture may be sampled through a bind group.
    TextureBinding,
    /// The texture may be bound as a storage texture.
    StorageBinding,
    /// The texture may be the target of a render pass.
    RenderAttachment,
}

/// The set of uses a texture was created with. An operation whose use is
/// not in the set is refused.
#[derive(Clone, Copy, Debug, Hash, PartialEq, Eq, Structural)]
pub struct TextureUsages {
    copy_src: bool,
    copy_dst: bool,
    texture_binding: bool,
    storage_binding: bool,
    render_attachment: bool,
}

impl TextureUsages {
    /// The uses as a mathematical set.
    pub closed spec fn view(self) -> Set<TextureUsage> {
        Set::new(
            |usage: TextureUsage|
                match usage {
                    TextureUsage::CopySrc => self.copy_src,
                    TextureUsage::CopyDst => self.copy_dst,
                    TextureUsage::TextureBinding => self.texture_binding,
                    TextureUsage::StorageBinding => self.storage_binding,
                    TextureUsage::RenderAttachment => self.render_attachment,
                },
        )
    }

    /// No use at all.
    pub fn empty() -> (usages: Self)
        ensures
            usages@ == Set::<TextureUsage>::empty(),
    {
        let usages = Self {
            copy_src: false,
            copy_dst: false,
            texture_binding: false,
            storage_binding: false,
            render_attachment: false,
        };
        assert(usages@ =~= Set::<TextureUsage>::empty());
        usages
    }

    /// Every use.
    pub fn all() -> (usages: Self)
        ensures
            usages@ == Set::<TextureUsage>::full(),
    {
        let usages = Self {
            copy_src: true,
            copy_dst: true,
            texture_binding: true,
            storage_binding: true,
            render_attachment: true,
        };
        assert(usages@ =~= Set::<TextureUsage>::full());
        usages
    }

    /// This set with `usage` added.
    pub fn with(self, usage: TextureUsage) -> (usages: Self)
        ensures
            usages@ == self@.insert(usage),
    {
        let mut usages = self;
        match usage {
            TextureUsage::CopySrc => usages.copy_src = true,
            TextureUsage::CopyDst => usages.copy_dst = true,
            TextureUsage::TextureBinding => usages.texture_binding = true,
            TextureUsage::StorageBinding => usages.storage_binding = true,
            TextureUsage::RenderAttachment => usages.render_attachment = true,
        }
        assert(usages@ =~= self@.insert(usage));
        usages
    }

    /// This set with `usage` taken out.
    pub fn without(self, usage: TextureUsage) -> (usages: Self)
        ensures
            usages@ == self@.remove(usage),
    {
        let mut usages = self;
        match usage {
            TextureUsage::CopySrc => usages.copy_src = false,
            TextureUsage::CopyDst => usages.copy_dst = false,
            TextureUsage::TextureBinding => usages.texture_binding = false,
            TextureUsage::StorageBinding => usages.storage_binding = false,
            TextureUsage::RenderAttachment => usages.render_attachment = false,
        }
        assert(usages@ =~= self@.remove(usage));
        usages
    }

    /// Whether `usage` is permitted.
    pub fn contains(&self, usage: TextureUsage) -> (permitted: bool)
        ensures
            permitted == self@.contains(usage),
    {
        match usage {
            TextureUsage::CopySrc => self.copy_src,
            TextureUsage::CopyDst => self.copy_dst,
            TextureUsage::TextureBinding => self.texture_binding,
            TextureUsage::StorageBinding => self.storage_binding,
            TextureUsage::RenderAttachment => self.render_attachment,
        }
    }
}

/// The uses a staging buffer is created with.
#[derive(Clone, Copy, Debug, Hash, PartialEq, Eq, Structural)]
pub struct BufferUsages {
    /// The CPU may map the buffer and read it.
    pub map_read: bool,
    /// The buffer may be the source of a copy.
    pub copy_src: bool,
    /// The buffer may be the destination of a copy or of a queue write.
    pub copy_dst: bool,
}

} // verus!
