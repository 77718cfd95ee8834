//! Integer-named 2D textures: upload, binding and nearest-neighbour texel lookup.
//!
//! A texture keeps the bytes it was uploaded with, four per texel (RGBA). A byte
//! `k` stands for the channel value `k / 256`, which a 32-bit float holds exactly.
use vstd::prelude::*;

verus! {

pub const GL_TEXTURE_2D: u32 = 0x0de1;

pub const GL_UNSIGNED_BYTE: u32 = 0x1401;

pub const GL_RGB: u32 = 0x1907;

pub const GL_RGBA: u32 = 0x1908;

pub const GL_LUMINANCE: u32 = 0x1909;

pub const GL_LUMINANCE_ALPHA: u32 = 0x190a;

pub open spec fn internal_format_spec(v: i32) -> u32 {
    if v == 1 {
        GL_LUMINANCE
    } else if v == 2 {
        GL_LUMINANCE_ALPHA
    } else if v == 3 {
        GL_RGB
    } else if v == 4 {
        GL_RGBA
    } else {
        v as u32
    }
}

/// The format token that an internal-format argument stands for: the shorthands
/// 1 to 4 name luminance, luminance-alpha, RGB and RGBA; any other value is a token
/// already.
pub fn internal_format_of(v: i32) -> (r: u32)
    ensures
        r == internal_format_spec(v),
{
    match v {
        1 => GL_LUMINANCE,
        2 => GL_LUMINANCE_ALPHA,
        3 => GL_RGB,
        4 => GL_RGBA,
        _ => v as u32,
    }
}

/// The colour byte that a texel channel byte `k` is drawn as: its value `k / 256`
/// scaled by 255 and truncated.
pub open spec fn shade_byte_spec(k: u8) -> u8 {
    ((k as int * 255) / 256) as u8
}

/// The colour byte that a texel channel byte `k` is drawn as: `k / 256` scaled by
/// 255 and truncated, so 255 draws as 254.
pub fn shade_byte(k: u8) -> (r: u8)
    ensures
        r == shade_byte_spec(k),
        r as int == (k as int * 255) / 256,
{
    ((k as u32 * 255) / 256) as u8
}

/// A texture: `width` x `height` texels of four bytes each, rows first.
pub struct Texture {
    pub width: usize,
    pub height: usize,
    pub data: Vec<u8>,
}

impl Texture {
    pub open spec fn wf(&self) -> bool {
        self.data.len() == self.width * self.height * 4
    }

    pub open spec fn is_empty_spec(&self) -> bool {
        self.width == 0 || self.height == 0
    }

    /// The 0 x 0 texture that a new name starts with.
    pub fn empty() -> (r: Texture)
        ensures
            r.width == 0 && r.height == 0 && r.data@.len() == 0,
            r.wf(),
    {
        Texture { width: 0, height: 0, data: Vec::new() }
    }

    /// The texture has no texels.
    pub fn is_empty(&self) -> (r: bool)
        ensures
            r == self.is_empty_spec(),
    {
        self.width == 0 || self.height == 0
    }

    /// The position of the first byte of the texel at column `x`, row `y`, both
    /// wrapped to the texture's size.
    pub open spec fn texel_offset(&self, x: int, y: int) -> int {
        ((x % self.width as int) + (y % self.height as int) * self.width as int) * 4
    }

    /// The four bytes (RGBA) of the texel at column `x`, row `y`, each wrapped to the
    /// texture's size.
    pub fn texel(&self, x: usize, y: usize) -> (r: [u8; 4])
        requires
            self.wf(),
            !self.is_empty_spec(),
        ensures
            forall|c: int|
                0 <= c < 4 ==> #[trigger] r[c] == self.data@[self.texel_offset(x as int, y as int)
                    + c],
    {
        let tx = x % self.width;
        let ty = y % self.height;
        proof {
            assert(ty * self.width + tx < self.height * self.width) by (nonlinear_arith)
                requires
                    tx < self.width,
                    ty < self.height,
            ;
            assert(self.height * self.width == self.width * self.height) by (nonlinear_arith);
        }
        let i = (tx + ty * self.width) * 4;
        [self.data[i], self.data[i + 1], self.data[i + 2], self.data[i + 3]]
    }

    /// The colour that the texel at column `x`, row `y` (each wrapped) is drawn
    /// with: its red, green and blue bytes, each taken through `shade_byte`.
    pub fn shaded_texel(&self, x: usize, y: usize) -> (r: [u8; 3])
        requires
            self.wf(),
            !self.is_empty_spec(),
        ensures
            forall|c: int|
                0 <= c < 3 ==> #[trigger] r[c] == shade_byte_spec(
                    self.data@[self.texel_offset(x as int, y as int) + c],
                ),
    {
        let t = self.texel(x, y);
        [shade_byte(t[0]), shade_byte(t[1]), shade_byte(t[2])]
    }
}

/// An upload is applied: a level-0 2D texture of RGBA unsigned bytes, of a size
/// that is not negative. Any other upload is ignored.
pub open spec fn upload_applies(
    target: u32,
    level: i32,
    width: i32,
    height: i32,
    format: u32,
    type_: u32,
) -> bool {
    &&& target == GL_TEXTURE_2D
    &&& level == 0
    &&& format == GL_RGBA
    &&& type_ == GL_UNSIGNED_BYTE
    &&& width >= 0
    &&& height >= 0
}

/// The data of a texture resized to `n` bytes: what it held is kept as far as it
/// reaches, and new bytes are zero.
pub open spec fn resized(old: Seq<u8>, n: int) -> Seq<u8> {
    Seq::new(n as nat, |i: int| if i < old.len() { old[i] } else { 0u8 })
}

/// The table of textures, indexed by name, with the name of the bound texture.
pub struct TextureTable {
    pub textures: Vec<Texture>,
    pub bound: usize,
}

impl TextureTable {
    pub open spec fn wf(&self) -> bool {
        &&& self.bound < self.textures.len()
        &&& forall|i: int| 0 <= i < self.textures.len() ==> #[trigger] self.textures@[i].wf()
    }

    /// The texture that texturing uses now.
    pub open spec fn bound_spec(&self) -> Texture {
        self.textures@[self.bound as int]
    }

    /// A table that holds the empty texture 0, which is bound.
    pub fn new() -> (r: TextureTable)
        ensures
            r.wf(),
            r.bound == 0,
            r.textures.len() == 1,
            r.textures@[0].width == 0 && r.textures@[0].height == 0,
    {
        let mut textures = Vec::new();
        textures.push(Texture::empty());
        TextureTable { textures, bound: 0 }
    }

    /// Binds texture `name`, growing the table with empty textures so that the
    /// name exists.
    pub fn bind(&mut self, name: u32)
        requires
            old(self).wf(),
        ensures
            final(self).wf(),
            final(self).bound == name,
            final(self).textures.len() == if name < old(self).textures.len() {
                old(self).textures.len() as int
            } else {
                name + 1
            },
            forall|i: int|
                0 <= i < old(self).textures.len() ==> #[trigger] final(self).textures@[i]
                    == old(self).textures@[i],
            forall|i: int|
                old(self).textures.len() <= i < final(self).textures.len() ==> {
                    &&& (#[trigger] final(self).textures@[i]).width == 0
                    &&& final(self).textures@[i].height == 0
                    &&& final(self).textures@[i].data@.len() == 0
                },
    {
        let name = name as usize;
        while self.textures.len() <= name
            invariant
                self.textures.len() >= old(self).textures.len(),
                self.textures.len() <= name + 1 || self.textures.len() == old(self).textures.len(),
                self.bound < self.textures.len(),
                forall|i: int| 0 <= i < self.textures.len() ==> #[trigger] self.textures@[i].wf(),
                forall|i: int|
                    0 <= i < old(self).textures.len() ==> #[trigger] self.textures@[i]
                        == old(self).textures@[i],
                forall|i: int|
                    old(self).textures.len() <= i < self.textures.len() ==> {
                        &&& (#[trigger] self.textures@[i]).width == 0
                        &&& self.textures@[i].height == 0
                        &&& self.textures@[i].data@.len() == 0
                    },
            decreases name + 1 - self.textures.len(),
        {
            self.textures.push(Texture::empty());
        }
        self.bound = name;
    }

    /// Uploads level 0 of the bound texture from RGBA bytes, `width` x `height`
    /// texels, rows first. Without `pixels` the size is set and the texture keeps
    /// what it held as far as it reaches, new texels being zero. An upload of
    /// another target, level, format or type, or of a negative size, is ignored.
    /// Returns whether the upload was applied.
    pub fn upload(
        &mut self,
        target: u32,
        level: i32,
        width: i32,
        height: i32,
        format: u32,
        type_: u32,
        pixels: Option<&[u8]>,
    ) -> (applied: bool)
        requires
            old(self).wf(),
            width >= 0 && height >= 0 ==> width * height * 4 <= usize::MAX,
            upload_applies(target, level, width, height, format, type_) ==> (pixels matches Some(
                p,
            ) ==> p@.len() >= width * height * 4),
        ensures
            final(self).wf(),
            applied == upload_applies(target, level, width, height, format, type_),
            final(self).bound == old(self).bound,
            final(self).textures.len() == old(self).textures.len(),
            forall|i: int|
                0 <= i < old(self).textures.len() && (i != old(self).bound || !applied)
                    ==> #[trigger] final(self).textures@[i] == old(self).textures@[i],
            applied ==> {
                let t = final(self).bound_spec();
                let n = width * height * 4;
                &&& t.width == width && t.height == height
                &&& match pixels {
                    Some(p) => t.data@ == p@.subrange(0, n),
                    None => t.data@ == resized(old(self).bound_spec().data@, n),
                }
            },
    {
        if !(target == GL_TEXTURE_2D && level == 0 && format == GL_RGBA && type_ == GL_UNSIGNED_BYTE
            && width >= 0 && height >= 0) {
            return false;
        }
        let w = width as usize;
        let h = height as usize;
        let n = w * h * 4;
        let b = self.bound;
        let mut data: Vec<u8> = Vec::new();
        match pixels {
            Some(p) => {
                let mut i: usize = 0;
                while i < n
                    invariant
                        i <= n,
                        n <= p@.len(),
                        data@ == p@.subrange(0, i as int),
                    decreases n - i,
                {
                    data.push(p[i]);
                    i = i + 1;
                }
            },
            None => {
                let mut i: usize = 0;
                while i < n
                    invariant
                        b < self.textures.len(),
                        i <= n,
                        data@ == resized(self.textures@[b as int].data@, i as int),
                    decreases n - i,
                {
                    if i < self.textures[b].data.len() {
                        data.push(self.textures[b].data[i]);
                    } else {
                        data.push(0);
                    }
                    i = i + 1;
                }
            },
        }
        assert(n == w * h * 4);
        self.textures.set(b, Texture { width: w, height: h, data });
        true
    }
}

/// Uploading bytes that are all zero leaves a texture whose data is all zero, so
/// every channel value `k / 256` is zero; uploading bytes that are all 255 leaves
/// every stored byte 255, the channel value 255 / 256.
pub proof fn lemma_upload_keeps_bytes(p: Seq<u8>, n: int, k: u8)
    requires
        0 <= n <= p.len(),
        forall|i: int| 0 <= i < p.len() ==> #[trigger] p[i] == k,
    ensures
        forall|i: int| 0 <= i < n ==> #[trigger] p.subrange(0, n)[i] == k,
{
}

} // verus!
