//! The pipeline state: the two matrix stacks and the current mode, the viewport,
//! the primitive under construction, the current texture coordinate, the textures
//! and the framebuffer, with the commands that change them.
use vstd::prelude::*;
use crate::assemble::{is_triangulation, triangulate, Corners};
use crate::framebuffer::Framebuffer;
use crate::math::{computable, exact, lit, Mat4, Scalar, Vec4};
use crate::modes::{MatrixMode, PrimitiveMode};
use crate::stack::{load_spec, pop_spec, push_spec, MatrixStack};
use crate::surface::BITMAPINFOHEADER;
use crate::texture::TextureTable;

verus! {

/// A vertex of the primitive under construction: its position and the texture
/// coordinate that was current when it was given.
#[derive(Clone, Copy)]
pub struct Vertex<T> {
    pub position: Vec4<T>,
    pub tex_coord: Vec4<T>,
}

/// The viewport rectangle in pixels.
#[derive(Clone, Copy, Debug, PartialEq, Eq, Structural)]
pub struct Viewport {
    pub x: i32,
    pub y: i32,
    pub width: i32,
    pub height: i32,
}

/// The new stack holds the old one with its top multiplied on the right by `m`.
pub open spec fn top_multiplied<T: Scalar>(
    before: Seq<Mat4<T>>,
    after: Seq<Mat4<T>>,
    m: Mat4<T>,
) -> bool {
    &&& after.len() == before.len()
    &&& after.drop_last() == before.drop_last()
    &&& exact::<T>() ==> after.last() == Mat4::product_spec(before.last(), m)
}

/// The state of one rendering context.
pub struct Context<T> {
    pub fb: Option<Framebuffer<T>>,
    pub bmi: BITMAPINFOHEADER,
    pub matrix_mode: MatrixMode,
    pub model_view: MatrixStack<Mat4<T>>,
    pub projection: MatrixStack<Mat4<T>>,
    pub viewport: Viewport,
    pub primitive: PrimitiveMode,
    pub vertices: Vec<Vertex<T>>,
    pub tex_coord: Vec4<T>,
    pub textures: TextureTable,
}

impl<T: Scalar> Context<T> {
    /// Both stacks hold a matrix, the texture table is sound, and so is the
    /// framebuffer where there is one.
    pub open spec fn wf(&self) -> bool {
        &&& self.model_view.wf()
        &&& self.projection.wf()
        &&& self.textures.wf()
        &&& self.fb matches Some(f) ==> f.wf()
    }

    /// The stack of `mode`.
    pub open spec fn stack_of(&self, mode: MatrixMode) -> Seq<Mat4<T>> {
        match mode {
            MatrixMode::ModelView => self.model_view@,
            MatrixMode::Projection => self.projection@,
        }
    }

    /// The stack that the matrix commands act on.
    pub open spec fn current(&self) -> Seq<Mat4<T>> {
        self.stack_of(self.matrix_mode)
    }

    /// The stack that the matrix commands do not act on.
    pub open spec fn other(&self) -> Seq<Mat4<T>> {
        match self.matrix_mode {
            MatrixMode::ModelView => self.projection@,
            MatrixMode::Projection => self.model_view@,
        }
    }

    /// Everything but the two stacks is the same in `a` and `b`.
    pub open spec fn same_but_stacks(a: &Context<T>, b: &Context<T>) -> bool {
        &&& a.fb == b.fb
        &&& a.bmi == b.bmi
        &&& a.matrix_mode == b.matrix_mode
        &&& a.viewport == b.viewport
        &&& a.primitive == b.primitive
        &&& a.vertices@ == b.vertices@
        &&& a.tex_coord == b.tex_coord
        &&& a.textures == b.textures
    }

    /// The matrix mode and both stacks are the same in `a` and `b`.
    pub open spec fn same_transforms(a: &Context<T>, b: &Context<T>) -> bool {
        &&& a.matrix_mode == b.matrix_mode
        &&& a.model_view@ == b.model_view@
        &&& a.projection@ == b.projection@
    }

    /// `b` differs from `a` in the current stack alone.
    pub open spec fn current_changed(a: &Context<T>, b: &Context<T>) -> bool {
        Self::same_but_stacks(a, b) && b.other() == a.other()
    }

    /// The point `(0, 0, 0, 1)`.
    pub open spec fn origin_spec() -> Vec4<T> {
        Vec4 { x: lit::<T>(0), y: lit::<T>(0), z: lit::<T>(0), w: lit::<T>(1) }
    }

    /// A context with no framebuffer yet: identity matrices on both stacks,
    /// model-view mode, a zero viewport, an empty point primitive, texture
    /// coordinate `(0, 0, 0, 1)` and the empty texture 0 bound.
    pub fn new() -> (r: Context<T>)
        ensures
            r.wf(),
            r.fb is None,
            r.matrix_mode == MatrixMode::ModelView,
            r.model_view@.len() == 1 && r.projection@.len() == 1,
            exact::<T>() ==> r.model_view@[0].is_identity() && r.projection@[0].is_identity(),
            r.viewport == (Viewport { x: 0, y: 0, width: 0, height: 0 }),
            r.primitive == PrimitiveMode::Points,
            r.vertices@.len() == 0,
            exact::<T>() ==> r.tex_coord == Self::origin_spec(),
            r.textures.bound == 0 && r.textures.textures@.len() == 1,
            r.textures.textures@[0].width == 0 && r.textures.textures@[0].height == 0,
    {
        Context {
            fb: None,
            bmi: BITMAPINFOHEADER::for_surface(0, 0),
            matrix_mode: MatrixMode::ModelView,
            model_view: MatrixStack::new(Mat4::identity()),
            projection: MatrixStack::new(Mat4::identity()),
            viewport: Viewport { x: 0, y: 0, width: 0, height: 0 },
            primitive: PrimitiveMode::Points,
            vertices: Vec::new(),
            tex_coord: Vec4::new(T::from(0i8), T::from(0i8), T::from(0i8), T::from(1i8)),
            textures: TextureTable::new(),
        }
    }

    /// Gives the context a `width` x `height` framebuffer, every depth `far`, and
    /// the header that presents it.
    pub fn attach_surface(&mut self, width: i32, height: i32, far: T)
        requires
            old(self).wf(),
            width >= 0 && height >= 0,
            width * height * 4 <= usize::MAX,
        ensures
            final(self).wf(),
            final(self).fb matches Some(f) && f.width == width && f.height == height
                && f.is_cleared(far),
            final(self).bmi == BITMAPINFOHEADER::for_surface_spec(width, height),
            Self::same_transforms(&*old(self), &*final(self)),
            final(self).textures == old(self).textures,
            final(self).viewport == old(self).viewport,
            final(self).primitive == old(self).primitive,
            final(self).vertices@ == old(self).vertices@,
            final(self).tex_coord == old(self).tex_coord,
    {
        self.fb = Some(Framebuffer::new(width as usize, height as usize, far));
        self.bmi = BITMAPINFOHEADER::for_surface(width, height);
    }

    /// Selects the stack that a `glMatrixMode` token names. Returns false, changing
    /// nothing, for any other token.
    pub fn set_matrix_mode(&mut self, token: u32) -> (ok: bool)
        requires
            old(self).wf(),
        ensures
            final(self).wf(),
            ok == MatrixMode::from_gl_spec(token).is_some(),
            ok ==> final(self).matrix_mode == MatrixMode::from_gl_spec(token).unwrap(),
            !ok ==> final(self).matrix_mode == old(self).matrix_mode,
            final(self).model_view@ == old(self).model_view@,
            final(self).projection@ == old(self).projection@,
            final(self).fb == old(self).fb && final(self).textures == old(self).textures,
            final(self).viewport == old(self).viewport,
            final(self).primitive == old(self).primitive,
            final(self).vertices@ == old(self).vertices@,
            final(self).tex_coord == old(self).tex_coord,
    {
        match MatrixMode::from_gl(token) {
            Some(mode) => {
                self.matrix_mode = mode;
                true
            },
            None => false,
        }
    }

    /// Replaces the current matrix by the identity.
    pub fn load_identity(&mut self)
        requires
            old(self).wf(),
        ensures
            final(self).wf(),
            Self::current_changed(&*old(self), &*final(self)),
            final(self).current().len() == old(self).current().len(),
            final(self).current().drop_last() == old(self).current().drop_last(),
            exact::<T>() ==> final(self).current().last().is_identity(),
    {
        let id = Mat4::identity();
        match self.matrix_mode {
            MatrixMode::ModelView => self.model_view.load(id),
            MatrixMode::Projection => self.projection.load(id),
        }
        proof {
            assert(final(self).current() == load_spec(old(self).current(), id));
            assert(load_spec(old(self).current(), id).drop_last() =~= old(self).current().drop_last());
        }
    }

    /// Pushes a copy of the current matrix.
    pub fn push_matrix(&mut self)
        requires
            old(self).wf(),
        ensures
            final(self).wf(),
            Self::current_changed(&*old(self), &*final(self)),
            final(self).current() == push_spec(old(self).current()),
    {
        match self.matrix_mode {
            MatrixMode::ModelView => self.model_view.push(),
            MatrixMode::Projection => self.projection.push(),
        }
    }

    /// Removes the current matrix, unless it is the only one on its stack.
    pub fn pop_matrix(&mut self)
        requires
            old(self).wf(),
        ensures
            final(self).wf(),
            Self::current_changed(&*old(self), &*final(self)),
            final(self).current() == pop_spec(old(self).current()),
    {
        match self.matrix_mode {
            MatrixMode::ModelView => self.model_view.pop(),
            MatrixMode::Projection => self.projection.pop(),
        }
    }

    /// Multiplies the current matrix on the right by `m`.
    pub fn mult_matrix(&mut self, m: &Mat4<T>)
        requires
            old(self).wf(),
            computable::<T>(old(self).current().last().mul_req(*m)),
        ensures
            final(self).wf(),
            Self::current_changed(&*old(self), &*final(self)),
            top_multiplied(old(self).current(), final(self).current(), *m),
    {
        let top = match self.matrix_mode {
            MatrixMode::ModelView => self.model_view.top(),
            MatrixMode::Projection => self.projection.top(),
        };
        let p = top.mul(m);
        match self.matrix_mode {
            MatrixMode::ModelView => self.model_view.load(p),
            MatrixMode::Projection => self.projection.load(p),
        }
        proof {
            assert(final(self).current() == load_spec(old(self).current(), p));
            assert(load_spec(old(self).current(), p).drop_last() =~= old(self).current().drop_last());
        }
    }

    /// Multiplies the current matrix on the right by the translation `(x, y, z)`.
    pub fn translate(&mut self, x: T, y: T, z: T)
        requires
            old(self).wf(),
            computable::<T>(old(self).current().last().mul_req(Mat4::translation_spec(x, y, z))),
        ensures
            final(self).wf(),
            Self::current_changed(&*old(self), &*final(self)),
            top_multiplied(old(self).current(), final(self).current(), Mat4::translation_spec(x, y, z)),
    {
        let m = Mat4::translation(x, y, z);
        self.mult_matrix(&m);
    }

    /// Multiplies the current matrix on the right by the scaling `(x, y, z)`.
    pub fn scale(&mut self, x: T, y: T, z: T)
        requires
            old(self).wf(),
            computable::<T>(old(self).current().last().mul_req(Mat4::scaling_spec(x, y, z))),
        ensures
            final(self).wf(),
            Self::current_changed(&*old(self), &*final(self)),
            top_multiplied(old(self).current(), final(self).current(), Mat4::scaling_spec(x, y, z)),
    {
        let m = Mat4::scaling(x, y, z);
        self.mult_matrix(&m);
    }

    /// Multiplies the current matrix on the right by the rotation about the unit
    /// axis `(x, y, z)` whose angle has cosine `c` and sine `s`.
    pub fn rotate(&mut self, x: T, y: T, z: T, c: T, s: T)
        requires
            old(self).wf(),
            computable::<T>(Mat4::<T>::rotation_req(x, y, z, c, s)),
            computable::<T>(
                old(self).current().last().mul_req(Mat4::rotation_spec(x, y, z, c, s)),
            ),
        ensures
            final(self).wf(),
            Self::current_changed(&*old(self), &*final(self)),
            top_multiplied(
                old(self).current(),
                final(self).current(),
                Mat4::rotation_spec(x, y, z, c, s),
            ),
    {
        let m = Mat4::rotation(x, y, z, c, s);
        self.mult_matrix(&m);
    }

    /// Multiplies the current matrix on the right by an orthographic projection.
    pub fn ortho(&mut self, l: T, r: T, b: T, t: T, n: T, f: T)
        requires
            old(self).wf(),
            computable::<T>(Mat4::<T>::ortho_req(l, r, b, t, n, f)),
            computable::<T>(old(self).current().last().mul_req(Mat4::ortho_spec(l, r, b, t, n, f))),
        ensures
            final(self).wf(),
            Self::current_changed(&*old(self), &*final(self)),
            top_multiplied(
                old(self).current(),
                final(self).current(),
                Mat4::ortho_spec(l, r, b, t, n, f),
            ),
    {
        let m = Mat4::ortho(l, r, b, t, n, f);
        self.mult_matrix(&m);
    }

    /// Multiplies the current matrix on the right by a perspective projection.
    pub fn frustum(&mut self, l: T, r: T, b: T, t: T, n: T, f: T)
        requires
            old(self).wf(),
            computable::<T>(Mat4::<T>::frustum_req(l, r, b, t, n, f)),
            computable::<T>(
                old(self).current().last().mul_req(Mat4::frustum_spec(l, r, b, t, n, f)),
            ),
        ensures
            final(self).wf(),
            Self::current_changed(&*old(self), &*final(self)),
            top_multiplied(
                old(self).current(),
                final(self).current(),
                Mat4::frustum_spec(l, r, b, t, n, f),
            ),
    {
        let m = Mat4::frustum(l, r, b, t, n, f);
        self.mult_matrix(&m);
    }

    /// Stores the viewport rectangle.
    pub fn set_viewport(&mut self, x: i32, y: i32, width: i32, height: i32)
        requires
            old(self).wf(),
        ensures
            final(self).wf(),
            final(self).viewport == (Viewport { x, y, width, height }),
            Self::same_transforms(&*old(self), &*final(self)),
            final(self).fb == old(self).fb && final(self).textures == old(self).textures,
            final(self).primitive == old(self).primitive,
            final(self).vertices@ == old(self).vertices@,
            final(self).tex_coord == old(self).tex_coord,
    {
        self.viewport = Viewport { x, y, width, height };
    }

    /// Starts a primitive of `mode` with no vertices.
    pub fn begin(&mut self, mode: PrimitiveMode)
        requires
            old(self).wf(),
        ensures
            final(self).wf(),
            final(self).primitive == mode,
            final(self).vertices@.len() == 0,
            final(self).tex_coord == old(self).tex_coord,
            Self::same_transforms(&*old(self), &*final(self)),
            final(self).fb == old(self).fb && final(self).textures == old(self).textures,
            final(self).viewport == old(self).viewport,
    {
        self.primitive = mode;
        self.vertices.clear();
    }

    /// Makes `(s, t, 0, 1)` the current texture coordinate.
    pub fn set_tex_coord(&mut self, s: T, t: T)
        requires
            old(self).wf(),
        ensures
            final(self).wf(),
            final(self).tex_coord.x == s && final(self).tex_coord.y == t,
            exact::<T>() ==> final(self).tex_coord == (Vec4 { x: s, y: t, z: lit::<T>(0), w: lit::<T>(1) }),
            final(self).vertices@ == old(self).vertices@,
            final(self).primitive == old(self).primitive,
            Self::same_transforms(&*old(self), &*final(self)),
            final(self).fb == old(self).fb && final(self).textures == old(self).textures,
            final(self).viewport == old(self).viewport,
    {
        self.tex_coord = Vec4::new(s, t, T::from(0i8), T::from(1i8));
    }

    /// Adds the vertex `(x, y, z, w)` to the primitive, with the current texture
    /// coordinate.
    pub fn vertex(&mut self, x: T, y: T, z: T, w: T)
        requires
            old(self).wf(),
        ensures
            final(self).wf(),
            final(self).vertices@ == old(self).vertices@.push(
                Vertex { position: Vec4 { x, y, z, w }, tex_coord: old(self).tex_coord },
            ),
            final(self).tex_coord == old(self).tex_coord,
            final(self).primitive == old(self).primitive,
            Self::same_transforms(&*old(self), &*final(self)),
            final(self).fb == old(self).fb && final(self).textures == old(self).textures,
            final(self).viewport == old(self).viewport,
    {
        let v = Vertex { position: Vec4::new(x, y, z, w), tex_coord: self.tex_coord };
        self.vertices.push(v);
    }

    /// Sets every colour byte of the framebuffer to zero and every depth to
    /// `far`; without a framebuffer nothing happens.
    pub fn clear(&mut self, far: T)
        requires
            old(self).wf(),
        ensures
            final(self).wf(),
            match old(self).fb {
                Some(f) => final(self).fb matches Some(g) && g.width == f.width && g.height
                    == f.height && g.is_cleared(far),
                None => final(self).fb is None,
            },
            Self::same_transforms(&*old(self), &*final(self)),
            final(self).bmi == old(self).bmi && final(self).textures == old(self).textures,
            final(self).viewport == old(self).viewport,
            final(self).primitive == old(self).primitive,
            final(self).vertices@ == old(self).vertices@,
            final(self).tex_coord == old(self).tex_coord,
    {
        match &mut self.fb {
            Some(f) => f.clear(far),
            None => {},
        }
    }

    /// The combined transform, projection times model-view.
    pub open spec fn combined(&self) -> Mat4<T> {
        Mat4::product_spec(self.projection@.last(), self.model_view@.last())
    }

    /// Finishes the primitive: each vertex with its position taken through the
    /// projection and model-view matrices into clip space (`P * M * p`), and the
    /// triangles that the vertices make in the primitive's mode. `None` where the
    /// mode is not one that is rasterised.
    pub fn end_primitive(&self) -> (r: Option<(Vec<Vertex<T>>, Vec<Corners>)>)
        requires
            self.wf(),
            computable::<T>(self.projection@.last().mul_req(self.model_view@.last())),
            forall|k: int|
                0 <= k < self.vertices@.len() ==> computable::<T>(
                    #[trigger] self.combined().transform_req(self.vertices@[k].position),
                ),
        ensures
            r.is_some() <==> self.primitive.rasterized_spec(),
            r matches Some(p) ==> {
                &&& p.0@.len() == self.vertices@.len()
                &&& forall|k: int|
                    0 <= k < p.0@.len() ==> #[trigger] p.0@[k].tex_coord
                        == self.vertices@[k].tex_coord
                &&& exact::<T>() ==> forall|k: int|
                    0 <= k < p.0@.len() ==> #[trigger] p.0@[k].position
                        == self.combined().transform_spec(self.vertices@[k].position)
                &&& is_triangulation(p.1@, self.primitive, self.vertices@.len() as int)
            },
    {
        let tris = match triangulate(self.primitive, self.vertices.len()) {
            Some(t) => t,
            None => {
                return None;
            },
        };
        let pm = self.projection.top().mul(&self.model_view.top());
        let mut out: Vec<Vertex<T>> = Vec::new();
        let mut i: usize = 0;
        while i < self.vertices.len()
            invariant
                i <= self.vertices@.len(),
                out@.len() == i,
                exact::<T>() ==> pm == self.combined(),
                forall|k: int|
                    0 <= k < self.vertices@.len() ==> computable::<T>(
                        #[trigger] self.combined().transform_req(self.vertices@[k].position),
                    ),
                forall|k: int| 0 <= k < i ==> #[trigger] out@[k].tex_coord == self.vertices@[k].tex_coord,
                exact::<T>() ==> forall|k: int|
                    0 <= k < i ==> #[trigger] out@[k].position == self.combined().transform_spec(
                        self.vertices@[k].position,
                    ),
            decreases self.vertices@.len() - i,
        {
            let v = self.vertices[i];
            proof {
                assert(computable::<T>(self.combined().transform_req(self.vertices@[i as int].position)));
                if !exact::<T>() {
                    assert(computable::<T>(pm.transform_req(v.position)));
                }
            }
            let p = pm.transform(v.position);
            out.push(Vertex { position: p, tex_coord: v.tex_coord });
            i = i + 1;
        }
        Some((out, tris))
    }
}

/// Every context that the commands above can reach holds at least one matrix on
/// each stack: each command keeps `wf`, which asks that of both stacks.
pub proof fn lemma_stacks_never_empty<T: Scalar>(c: &Context<T>)
    requires
        c.wf(),
    ensures
        c.model_view@.len() >= 1,
        c.projection@.len() >= 1,
        c.current().len() >= 1,
{
}

} // verus!
