//! The rasteriser: from shaded triangles to the fragments of each pixel,
//! and from there to a frame of packed pixels.

pub mod geometry;
pub mod theorems;

use crate::alpha_buffer::{Fragment, PixelState, RenderBufferPixel};
use crate::bounding_box::{lemma_from_triangle, pixel_of, BoundingBox, Point};
use crate::fixed::{Fixed, ONE};
use crate::grid::{lemma_index_splits, lemma_index_unique, lemma_row_bounds};
use crate::mesh::{Face, Mesh};
use crate::pixel::{pack, pack_spec};
use crate::rasterizer::geometry::{
    calculate_barycentric_coordinates, cull_triangle, get_frag_depth,
    lemma_outside_span_not_covered, perspective, project, sample_at, screen_triangle, Sample,
};
use crate::shader::{
    corners_of, FragmentShaderInputVariables, Shader, Varyings, VertexShaderInputVariables,
    VertexShaderOutputVariables,
};
use crate::storage::Storage;
use crate::vector::{Vec3, Vec4};
use rayon::iter::{IndexedParallelIterator, ParallelIterator};
use rayon::slice::ParallelSliceMut;
use vstd::prelude::*;

verus! {

/// The greatest alpha at which a fragment is dropped as invisible: 0.0001
/// rounded down.
pub const MIN_ALPHA: Fixed = 6;

/// How triangles are drawn.
#[derive(Clone, Copy, Debug)]
pub struct RasterOptions {
    pub cull_backfaces: bool,
    pub background_colour: Vec3,
}

/// The rasteriser of one screen: its uniforms and the fragments gathered at
/// each pixel since the last frame was handed out.
pub struct Rasterizer {
    width: usize,
    height: usize,
    storage: Storage,
    options: RasterOptions,
    render_buffer: Vec<RenderBufferPixel>,
}

/// The screen that triangles are drawn for.
pub struct Frame {
    pub width: int,
    pub height: int,
    pub cull_backfaces: bool,
}

/// The clip-space positions of a triangle's corners.
pub open spec fn positions_of(corners: Seq<Varyings>) -> Seq<Vec4> {
    seq![corners[0].position, corners[1].position, corners[2].position]
}

/// The pixel after a shaded sample at `depth` has been offered to it. The
/// sample is dropped where it is not nearer than the background, where the
/// fragment stage returned nothing, and where its alpha is at most
/// `MIN_ALPHA`; else the pixel takes it as a fragment.
pub open spec fn deposit(cell: PixelState, shaded: Option<Vec4>, depth: Fixed) -> PixelState {
    match shaded {
        Some(colour) => if depth < cell.background.depth && colour.w > MIN_ALPHA {
            cell.add_spec(Fragment { colour, depth })
        } else {
            cell
        },
        None => cell,
    }
}

/// The pixel after the fragment stage has run on a sample of a triangle.
pub open spec fn draw_pixel_spec<S: Shader>(
    cell: PixelState,
    sample: Sample,
    corners: Seq<Varyings>,
    storage: &Storage,
    shader: &S,
) -> PixelState {
    deposit(cell, shader.fragment_spec(corners, sample.weights, storage), sample.depth)
}

/// The pixel in column `x` of row `y` after one triangle has been drawn.
pub open spec fn pixel_after_face<S: Shader>(
    cell: PixelState,
    frame: Frame,
    corners: Seq<Varyings>,
    x: int,
    y: int,
    storage: &Storage,
    shader: &S,
) -> PixelState {
    match sample_at(frame.width, frame.height, frame.cull_backfaces, positions_of(corners), x, y) {
        None => cell,
        Some(sample) => draw_pixel_spec(cell, sample, corners, storage, shader),
    }
}

/// The pixel in column `x` of row `y` after the triangles have been drawn,
/// the first one first.
pub open spec fn pixel_after_faces<S: Shader>(
    cell: PixelState,
    frame: Frame,
    faces: Seq<Seq<Varyings>>,
    x: int,
    y: int,
    storage: &Storage,
    shader: &S,
) -> PixelState
    decreases faces.len(),
{
    if faces.len() == 0 {
        cell
    } else {
        pixel_after_face(
            pixel_after_faces(cell, frame, faces.drop_last(), x, y, storage, shader),
            frame,
            faces.last(),
            x,
            y,
            storage,
            shader,
        )
    }
}

/// The pixel at index `j` of a band, which holds whole rows from row `start`
/// of the screen on, after one triangle has been drawn.
pub open spec fn band_pixel_after_face<S: Shader>(
    cell: PixelState,
    frame: Frame,
    corners: Seq<Varyings>,
    start: int,
    j: int,
    storage: &Storage,
    shader: &S,
) -> PixelState {
    pixel_after_face(
        cell,
        frame,
        corners,
        j % frame.width,
        start + j / frame.width,
        storage,
        shader,
    )
}

/// Whether the walk over the rows and columns of `reach` has passed the
/// pixel at index `j` of the band when it stands at column `x` of row `y`.
pub open spec fn passed(reach: BoundingBox, width: int, start: int, j: int, x: int, y: int) -> bool {
    let column = j % width;
    let row = start + j / width;
    reach.contains(column, row) && (row < y || (row == y && column < x))
}

/// Whether the pixels of `band` stand as they do once the triangle has been
/// drawn at the pixels that the walk has passed, and nowhere else.
pub open spec fn drawn_until<S: Shader>(
    band: Seq<RenderBufferPixel>,
    before: Seq<RenderBufferPixel>,
    frame: Frame,
    corners: Seq<Varyings>,
    storage: &Storage,
    shader: &S,
    start: int,
    reach: BoundingBox,
    x: int,
    y: int,
) -> bool {
    forall|j: int|
        0 <= j < before.len() ==> (#[trigger] band[j])@ == if passed(
            reach,
            frame.width,
            start,
            j,
            x,
            y,
        ) {
            band_pixel_after_face(before[j]@, frame, corners, start, j, storage, shader)
        } else {
            before[j]@
        }
}

/// A pixel column (or row) on one side of the pixel of a coordinate lies on
/// that side of the coordinate.
proof fn lemma_pixel_sides(t: Fixed, x: int)
    ensures
        x < pixel_of(t) ==> x * ONE < t,
        x > pixel_of(t) ==> x * ONE > t,
{
}

/// Runs the fragment stage on a sample of a triangle.
fn run_fragment_shader<S: Shader>(
    storage: &Storage,
    bary_coords: Vec3,
    vertex_outputs: &[VertexShaderOutputVariables; 3],
    shader: &S,
) -> (colour: Option<Vec4>)
    requires
        shader.accepts(storage),
        forall|i: int| 0 <= i < 3 ==> shader.reads(#[trigger] corners_of(vertex_outputs@)[i]),
    ensures
        colour == shader.fragment_spec(corners_of(vertex_outputs@), bary_coords, storage),
{
    let input_vars = FragmentShaderInputVariables::new(vertex_outputs, bary_coords, storage);
    shader.fragment(input_vars)
}

/// Offers a sample of a triangle to the pixel at `alpha_buffer_row_index`:
/// unless the sample lies behind the pixel's background, the fragment stage
/// runs, and what it returns is handed to the pixel if it can be seen.
pub fn draw_pixel<S: Shader>(
    alpha_buffer_row_index: usize,
    frag_depth: Fixed,
    alpha_buffer_row: &mut [RenderBufferPixel],
    storage: &Storage,
    bary_clip: Vec3,
    vertex_outputs: &[VertexShaderOutputVariables; 3],
    shader: &S,
)
    requires
        alpha_buffer_row_index < old(alpha_buffer_row)@.len(),
        shader.accepts(storage),
        forall|i: int| 0 <= i < 3 ==> shader.reads(#[trigger] corners_of(vertex_outputs@)[i]),
    ensures
        final(alpha_buffer_row)@.len() == old(alpha_buffer_row)@.len(),
        final(alpha_buffer_row)@[alpha_buffer_row_index as int]@ == draw_pixel_spec(
            old(alpha_buffer_row)@[alpha_buffer_row_index as int]@,
            Sample { weights: bary_clip, depth: frag_depth },
            corners_of(vertex_outputs@),
            storage,
            shader,
        ),
        forall|j: int|
            0 <= j < old(alpha_buffer_row)@.len() && j != alpha_buffer_row_index
                ==> final(alpha_buffer_row)@[j] == old(alpha_buffer_row)@[j],
{
    if frag_depth >= alpha_buffer_row[alpha_buffer_row_index].get_background().depth {
        return ;
    }
    let colour = match run_fragment_shader(storage, bary_clip, vertex_outputs, shader) {
        Some(colour) => colour,
        None => {
            return ;
        },
    };
    let alpha = colour.w;
    if alpha <= MIN_ALPHA {
        return ;
    }
    alpha_buffer_row[alpha_buffer_row_index].add(Fragment { colour, depth: frag_depth });
}

/// Draws one triangle on a band of the screen: the rows of `bounding_box`,
/// which `alpha_buffer_row` holds from row `start` on. The triangle is left
/// out if it is culled or if a corner has a `w` of zero; else each pixel of
/// the band that lies in the triangle's box is offered the sample that the
/// triangle has for it.
#[verifier::loop_isolation(false)]
pub fn draw_triangle<S: Shader>(
    options: &RasterOptions,
    width: usize,
    height: usize,
    bounding_box: BoundingBox,
    start: usize,
    alpha_buffer_row: &mut [RenderBufferPixel],
    storage: &Storage,
    vertex_outputs: &[VertexShaderOutputVariables; 3],
    shader: &S,
)
    requires
        width >= 1,
        bounding_box.lower() == (Point { x: 0, y: start }),
        bounding_box.upper().x == width - 1,
        start <= bounding_box.upper().y < height,
        old(alpha_buffer_row)@.len() == width * (bounding_box.upper().y - start + 1),
        shader.accepts(storage),
        forall|i: int| 0 <= i < 3 ==> shader.reads(#[trigger] corners_of(vertex_outputs@)[i]),
    ensures
        final(alpha_buffer_row)@.len() == old(alpha_buffer_row)@.len(),
        forall|j: int|
            0 <= j < old(alpha_buffer_row)@.len() ==> (#[trigger] final(alpha_buffer_row)@[j])@
                == band_pixel_after_face(
                old(alpha_buffer_row)@[j]@,
                Frame {
                    width: width as int,
                    height: height as int,
                    cull_backfaces: options.cull_backfaces,
                },
                corners_of(vertex_outputs@),
                start as int,
                j,
                storage,
                shader,
            ),
{
    let ghost frame = Frame {
        width: width as int,
        height: height as int,
        cull_backfaces: options.cull_backfaces,
    };
    let ghost corners = corners_of(vertex_outputs@);
    let ghost before = alpha_buffer_row@;
    let ghost rows = bounding_box.upper().y - start + 1;
    let vertex_positions = [
        vertex_outputs[0].position,
        vertex_outputs[1].position,
        vertex_outputs[2].position,
    ];
    assert(vertex_positions@ =~= positions_of(corners));
    if cull_triangle(&vertex_positions, options.cull_backfaces) {
        return ;
    }
    if vertex_positions[0].w == 0 || vertex_positions[1].w == 0 || vertex_positions[2].w == 0 {
        return ;
    }
    let screen_coords_2d = [
        project(width, height, &vertex_positions[0]),
        project(width, height, &vertex_positions[1]),
        project(width, height, &vertex_positions[2]),
    ];
    assert(screen_coords_2d@ =~= screen_triangle(width as int, height as int, vertex_positions@));
    let triangle_bounding_box = BoundingBox::from_triangle(screen_coords_2d, bounding_box);
    let lo = triangle_bounding_box.min();
    let hi = triangle_bounding_box.max();
    assert(alpha_buffer_row@.len() == alpha_buffer_row.len());
    let mut y = lo.y;
    while y <= hi.y
        invariant
            lo.y <= y <= hi.y + 1,
            alpha_buffer_row@.len() == before.len(),
            drawn_until(
                alpha_buffer_row@,
                before,
                frame,
                corners,
                storage,
                shader,
                start as int,
                triangle_bounding_box,
                lo.x as int,
                y as int,
            ),
        decreases hi.y + 1 - y,
    {
        let mut x = lo.x;
        while x <= hi.x
            invariant
                lo.y <= y <= hi.y,
                lo.x <= x <= hi.x + 1,
                alpha_buffer_row@.len() == before.len(),
                drawn_until(
                    alpha_buffer_row@,
                    before,
                    frame,
                    corners,
                    storage,
                    shader,
                    start as int,
                    triangle_bounding_box,
                    x as int,
                    y as int,
                ),
            decreases hi.x + 1 - x,
        {
            proof {
                lemma_row_bounds(width as int, rows, y - start);
                lemma_index_splits(width as int, x as int, y - start);
            }
            let index = (y - start) * width + x;
            let ghost row_before = alpha_buffer_row@;
            match calculate_barycentric_coordinates(&screen_coords_2d, x, y) {
                Some(bary_coords) => {
                    match perspective(bary_coords, &vertex_positions) {
                        Some(bary_clip) => {
                            let frag_depth = get_frag_depth(&vertex_positions, bary_coords);
                            draw_pixel(
                                index,
                                frag_depth,
                                alpha_buffer_row,
                                storage,
                                bary_clip,
                                vertex_outputs,
                                shader,
                            );
                        },
                        None => {},
                    }
                },
                None => {},
            }
            proof {
                assert(alpha_buffer_row@[index as int]@ == band_pixel_after_face(
                    before[index as int]@,
                    frame,
                    corners,
                    start as int,
                    index as int,
                    storage,
                    shader,
                ));
                assert forall|j: int| 0 <= j < before.len() implies (
                #[trigger] alpha_buffer_row@[j])@ == if passed(
                    triangle_bounding_box,
                    frame.width,
                    start as int,
                    j,
                    x + 1,
                    y as int,
                ) {
                    band_pixel_after_face(before[j]@, frame, corners, start as int, j, storage, shader)
                } else {
                    before[j]@
                } by {
                    lemma_index_unique(width as int, j);
                    assert(passed(triangle_bounding_box, frame.width, start as int, j, x + 1, y as int)
                        == (j == index || passed(
                        triangle_bounding_box,
                        frame.width,
                        start as int,
                        j,
                        x as int,
                        y as int,
                    )));
                    assert(row_before[j]@ == if passed(
                        triangle_bounding_box,
                        frame.width,
                        start as int,
                        j,
                        x as int,
                        y as int,
                    ) {
                        band_pixel_after_face(
                            before[j]@,
                            frame,
                            corners,
                            start as int,
                            j,
                            storage,
                            shader,
                        )
                    } else {
                        before[j]@
                    });
                }
            }
            x += 1;
        }
        y += 1;
    }
    proof {
        assert forall|j: int| 0 <= j < before.len() implies (#[trigger] alpha_buffer_row@[j])@
            == band_pixel_after_face(before[j]@, frame, corners, start as int, j, storage, shader) by {
            let column = j % (width as int);
            let row = start + j / (width as int);
            lemma_index_unique(width as int, j);
            if !triangle_bounding_box.contains(column, row) {
                assert(j / (width as int) < rows) by (nonlinear_arith)
                    requires
                        j == (j / (width as int)) * width + j % (width as int),
                        0 <= j % (width as int),
                        j < width * rows,
                        width >= 1,
                ;
                assert(bounding_box.contains(column, row));
                lemma_from_triangle(screen_coords_2d@, bounding_box, column, row);
                lemma_pixel_sides(screen_coords_2d@[0].x, column);
                lemma_pixel_sides(screen_coords_2d@[1].x, column);
                lemma_pixel_sides(screen_coords_2d@[2].x, column);
                lemma_pixel_sides(screen_coords_2d@[0].y, row);
                lemma_pixel_sides(screen_coords_2d@[1].y, row);
                lemma_pixel_sides(screen_coords_2d@[2].y, row);
                lemma_outside_span_not_covered(screen_coords_2d@, column, row);
            }
        }
    }
}

/// What the vertex stage returns at the three corners of each triangle.
pub open spec fn faces_view(faces: Seq<[VertexShaderOutputVariables; 3]>) -> Seq<Seq<Varyings>> {
    Seq::new(faces.len(), |i: int| corners_of(faces[i]@))
}

/// Whether the fragment stage can read what the vertex stage returned for
/// every triangle.
pub open spec fn all_readable<S: Shader>(
    faces: Seq<[VertexShaderOutputVariables; 3]>,
    shader: &S,
) -> bool {
    forall|f: int, i: int|
        0 <= f < faces.len() && 0 <= i < 3 ==> shader.reads(#[trigger] corners_of(faces[f]@)[i])
}

/// What the vertex stage returns at the three corners of a triangle.
pub open spec fn shaded_face<S: Shader>(face: Face, storage: &Storage, shader: &S) -> Seq<
    Varyings,
> {
    Seq::new(
        3,
        |i: int|
            shader.vertex_spec(
                face.vertices[i].position,
                face.vertices[i].texture_coords,
                face.vertices[i].normals,
                storage,
            ),
    )
}

/// What the vertex stage returns for each triangle of a mesh.
pub open spec fn shaded_mesh<S: Shader>(faces: Seq<Face>, storage: &Storage, shader: &S) -> Seq<
    Seq<Varyings>,
> {
    Seq::new(faces.len(), |f: int| shaded_face(faces[f], storage, shader))
}

/// The number of rows of a band: the least number such that `workers`
/// bands, or fewer, make up a screen of `height` rows.
pub open spec fn band_rows_spec(height: int, workers: int) -> int {
    if workers <= 1 {
        height
    } else {
        (height + workers - 1) / workers
    }
}

/// Computes `band_rows_spec`.
pub fn band_rows(height: usize, workers: usize) -> (rows: usize)
    requires
        height >= 1,
    ensures
        rows == band_rows_spec(height as int, workers as int),
        1 <= rows <= height,
        workers >= 1 ==> (rows - 1) * workers < height <= rows * workers,
{
    if workers <= 1 {
        assert(workers == 1 ==> (height - 1) * workers < height <= height * workers);
        height
    } else {
        let rows = (height - 1) / workers + 1;
        assert(rows == (height + workers - 1) / (workers as int) && rows <= height && (rows
            - 1) * workers < height <= rows * workers) by (nonlinear_arith)
            requires
                rows == (height - 1) / (workers as int) + 1,
                workers >= 2,
                height >= 1,
        ;
        rows
    }
}

/// Draws the triangles, the first one first, on one band of the screen:
/// `band` holds the rows from row `band_number * rows_per_band` on.
#[verifier::loop_isolation(false)]
pub fn draw_band<S: Shader>(
    band: &mut [RenderBufferPixel],
    band_number: usize,
    rows_per_band: usize,
    width: usize,
    height: usize,
    options: &RasterOptions,
    storage: &Storage,
    faces: &Vec<[VertexShaderOutputVariables; 3]>,
    shader: &S,
)
    requires
        width >= 1,
        old(band)@.len() >= width,
        old(band)@.len() == width * (old(band)@.len() / (width as nat)),
        band_number * rows_per_band + old(band)@.len() / (width as nat) <= height,
        shader.accepts(storage),
        all_readable(faces@, shader),
    ensures
        final(band)@.len() == old(band)@.len(),
        forall|j: int|
            0 <= j < old(band)@.len() ==> (#[trigger] final(band)@[j])@ == pixel_after_faces(
                old(band)@[j]@,
                Frame {
                    width: width as int,
                    height: height as int,
                    cull_backfaces: options.cull_backfaces,
                },
                faces_view(faces@),
                j % (width as int),
                band_number * rows_per_band + j / (width as int),
                storage,
                shader,
            ),
{
    let ghost frame = Frame {
        width: width as int,
        height: height as int,
        cull_backfaces: options.cull_backfaces,
    };
    let ghost before = band@;
    let rows = band.len() / width;
    assert(rows >= 1) by (nonlinear_arith)
        requires
            band@.len() >= width,
            band@.len() == width * rows,
            width >= 1,
    ;
    assert(0 <= band_number * rows_per_band) by (nonlinear_arith)
        requires
            0 <= band_number,
            0 <= rows_per_band,
    ;
    let start = band_number * rows_per_band;
    let end = start + rows;
    let bounding_box = BoundingBox::new(Point { x: 0, y: start }, Point { x: width - 1, y: end - 1 });
    let mut f: usize = 0;
    while f < faces.len()
        invariant
            f <= faces@.len(),
            band@.len() == before.len(),
            forall|j: int|
                0 <= j < before.len() ==> (#[trigger] band@[j])@ == pixel_after_faces(
                    before[j]@,
                    frame,
                    faces_view(faces@).take(f as int),
                    j % (width as int),
                    start + j / (width as int),
                    storage,
                    shader,
                ),
        decreases faces@.len() - f,
    {
        assert forall|i: int| 0 <= i < 3 implies shader.reads(
            #[trigger] corners_of(faces@[f as int]@)[i],
        ) by {}
        draw_triangle(
            options,
            width,
            height,
            bounding_box,
            start,
            band,
            storage,
            &faces[f],
            shader,
        );
        proof {
            let done = faces_view(faces@).take(f + 1);
            assert(done.drop_last() =~= faces_view(faces@).take(f as int));
            assert(done.last() == corners_of(faces@[f as int]@));
        }
        f += 1;
    }
    assert(faces_view(faces@).take(f as int) =~= faces_view(faces@));
}

/// Draws the triangles on every band of the screen, the bands shared out
/// among the worker threads.
///
/// Calls rayon's `par_chunks_mut`, `enumerate` and `for_each`. The contract
/// claims that `cells` is cut into consecutive bands of `chunk` pixels, the
/// last one shorter where `chunk` does not divide the number of pixels; that
/// `draw_band` runs once on each band with the band's number; and that
/// nothing else touches `cells`. The pixel at index `j` of band `k` is the
/// pixel at index `k * chunk + j` of the screen, in the column and row that
/// `draw_band` takes it for, so that each pixel holds what `draw_band`
/// ensures.
#[verifier::external_body]
fn draw_bands<S: Shader>(
    cells: &mut Vec<RenderBufferPixel>,
    rows_per_band: usize,
    chunk: usize,
    width: usize,
    height: usize,
    options: &RasterOptions,
    storage: &Storage,
    faces: &Vec<[VertexShaderOutputVariables; 3]>,
    shader: &S,
)
    requires
        width >= 1,
        rows_per_band >= 1,
        chunk == width * rows_per_band,
        old(cells)@.len() == width * height,
        shader.accepts(storage),
        all_readable(faces@, shader),
    ensures
        final(cells)@.len() == old(cells)@.len(),
        forall|j: int|
            0 <= j < old(cells)@.len() ==> (#[trigger] final(cells)@[j])@ == pixel_after_faces(
                old(cells)@[j]@,
                Frame {
                    width: width as int,
                    height: height as int,
                    cull_backfaces: options.cull_backfaces,
                },
                faces_view(faces@),
                j % (width as int),
                j / (width as int),
                storage,
                shader,
            ),
{
    cells.par_chunks_mut(chunk).enumerate().for_each(
        |(k, band)| draw_band(band, k, rows_per_band, width, height, options, storage, faces, shader),
    );
}

/// The number of threads that share the work of a draw call.
///
/// Calls `rayon::current_num_threads`. The number depends on the machine
/// and on how the thread pool was set up, so the contract claims nothing of
/// it.
#[verifier::external_body]
fn worker_count() -> (workers: usize) {
    rayon::current_num_threads()
}

/// One channel of a colour as a byte: `c * 255`, rounded down and held
/// between 0 and 255.
pub open spec fn channel_byte(c: Fixed) -> int {
    let scaled = (c * 255) / (ONE as int);
    if scaled < 0 {
        0
    } else if scaled > 255 {
        255
    } else {
        scaled
    }
}

/// The packed pixel of a colour.
pub open spec fn colour_to_u32(colour: Vec3) -> u32 {
    pack_spec(channel_byte(colour.x), channel_byte(colour.y), channel_byte(colour.z)) as u32
}

/// Computes `channel_byte`.
fn to_byte(c: Fixed) -> (b: u8)
    ensures
        b == channel_byte(c),
{
    let scaled = match ((c as i64) * 255).checked_div_euclid(65536) {
        Some(q) => q,
        None => 0,
    };
    if scaled < 0 {
        0
    } else if scaled > 255 {
        255
    } else {
        scaled as u8
    }
}

/// Packs a colour into a pixel, eight bits for each channel.
pub fn convert_colour_to_u32(colour: Vec3) -> (pixel: u32)
    ensures
        pixel == colour_to_u32(colour),
{
    pack(to_byte(colour.x), to_byte(colour.y), to_byte(colour.z))
}

impl Rasterizer {
    /// There is one pixel for each place of the screen.
    pub closed spec fn wf(&self) -> bool {
        self.render_buffer@.len() == self.width * self.height
    }

    /// The width and the height of the screen.
    pub closed spec fn dims(&self) -> (usize, usize) {
        (self.width, self.height)
    }

    /// How triangles are drawn.
    pub closed spec fn options(&self) -> RasterOptions {
        self.options
    }

    /// The uniforms.
    pub closed spec fn uniforms(&self) -> Storage {
        self.storage
    }

    /// What each pixel holds, row after row from the top.
    pub closed spec fn cells(&self) -> Seq<PixelState> {
        Seq::new(self.render_buffer@.len(), |i: int| self.render_buffer@[i]@)
    }

    /// The screen and the culling that triangles are drawn with.
    pub open spec fn frame(&self) -> Frame {
        Frame {
            width: self.dims().0 as int,
            height: self.dims().1 as int,
            cull_backfaces: self.options().cull_backfaces,
        }
    }

    /// A rasteriser for a screen of `width` by `height` pixels, with nothing
    /// bound and nothing drawn.
    pub fn new(width: usize, height: usize, options: RasterOptions) -> (rasterizer: Rasterizer)
        requires
            width * height <= usize::MAX,
        ensures
            rasterizer.wf(),
            rasterizer.dims() == (width, height),
            rasterizer.options() == options,
            rasterizer.uniforms().textures().len() == 0,
            rasterizer.uniforms().texture_indices().len() == 0,
            rasterizer.uniforms().scalars().len() == 0,
            rasterizer.uniforms().matrices().len() == 0,
            rasterizer.cells().len() == width * height,
            forall|i: int|
                0 <= i < width * height ==> #[trigger] rasterizer.cells()[i] == PixelState::cleared(
                    options.background_colour,
                ),
    {
        let n = width * height;
        let mut alpha_buffer: Vec<RenderBufferPixel> = Vec::with_capacity(n);
        let mut i: usize = 0;
        while i < n
            invariant
                i <= n,
                alpha_buffer@.len() == i,
                forall|k: int|
                    0 <= k < i ==> (#[trigger] alpha_buffer@[k])@ == PixelState::cleared(
                        options.background_colour,
                    ),
            decreases n - i,
        {
            alpha_buffer.push(RenderBufferPixel::new(options.background_colour));
            i += 1;
        }
        Rasterizer { width, height, storage: Storage::default(), options, render_buffer: alpha_buffer }
    }

    /// Runs the vertex stage on the three corners of a triangle.
    fn run_vertex_shader<S: Shader>(&self, face: &Face, shader: &S) -> (vertex_outputs: [VertexShaderOutputVariables; 3])
        requires
            shader.accepts(&self.uniforms()),
        ensures
            corners_of(vertex_outputs@) == shaded_face(*face, &self.uniforms(), shader),
            forall|i: int| 0 <= i < 3 ==> shader.reads(#[trigger] corners_of(vertex_outputs@)[i]),
    {
        let first = shader.vertex(
            VertexShaderInputVariables {
                position: face.vertices[0].position,
                texture_coords: face.vertices[0].texture_coords,
                normal: face.vertices[0].normals,
                storage: &self.storage,
            },
        );
        let second = shader.vertex(
            VertexShaderInputVariables {
                position: face.vertices[1].position,
                texture_coords: face.vertices[1].texture_coords,
                normal: face.vertices[1].normals,
                storage: &self.storage,
            },
        );
        let third = shader.vertex(
            VertexShaderInputVariables {
                position: face.vertices[2].position,
                texture_coords: face.vertices[2].texture_coords,
                normal: face.vertices[2].normals,
                storage: &self.storage,
            },
        );
        let vertex_outputs = [first, second, third];
        assert(corners_of(vertex_outputs@) =~= shaded_face(*face, &self.uniforms(), shader));
        vertex_outputs
    }

    /// Draws a mesh: the vertex stage runs on every corner, then each
    /// triangle, the first one first, leaves its fragments at the pixels
    /// that it covers.
    pub fn draw_mesh<S: Shader>(&mut self, mesh: &Mesh, shader: &S)
        requires
            old(self).wf(),
            shader.accepts(&old(self).uniforms()),
        ensures
            final(self).wf(),
            final(self).dims() == old(self).dims(),
            final(self).options() == old(self).options(),
            final(self).uniforms() == old(self).uniforms(),
            final(self).cells().len() == old(self).cells().len(),
            forall|j: int|
                0 <= j < old(self).cells().len() ==> #[trigger] final(self).cells()[j]
                    == pixel_after_faces(
                    old(self).cells()[j],
                    old(self).frame(),
                    shaded_mesh(mesh.faces@, &old(self).uniforms(), shader),
                    j % (old(self).dims().0 as int),
                    j / (old(self).dims().0 as int),
                    &old(self).uniforms(),
                    shader,
                ),
    {
        let mut faces: Vec<[VertexShaderOutputVariables; 3]> = Vec::new();
        let mut f: usize = 0;
        while f < mesh.faces.len()
            invariant
                f <= mesh.faces@.len(),
                faces@.len() == f,
                *self == *old(self),
                shader.accepts(&self.uniforms()),
                all_readable(faces@, shader),
                forall|k: int|
                    0 <= k < f ==> corners_of((#[trigger] faces@[k])@) == shaded_face(
                        mesh.faces@[k],
                        &self.uniforms(),
                        shader,
                    ),
            decreases mesh.faces@.len() - f,
        {
            let vertex_outputs = self.run_vertex_shader(&mesh.faces[f], shader);
            faces.push(vertex_outputs);
            f += 1;
        }
        assert(faces_view(faces@) =~= shaded_mesh(mesh.faces@, &self.uniforms(), shader));
        if self.width == 0 || self.height == 0 {
            assert(self.render_buffer@.len() == 0) by (nonlinear_arith)
                requires
                    self.render_buffer@.len() == self.width * self.height,
                    self.width == 0 || self.height == 0,
            ;
            return ;
        }
        assert(self.render_buffer@.len() == self.render_buffer.len());
        let num_threads = worker_count();
        let rows_per_thread = band_rows(self.height, num_threads);
        assert(self.width * rows_per_thread <= self.width * self.height) by (nonlinear_arith)
            requires
                rows_per_thread <= self.height,
        ;
        draw_bands(
            &mut self.render_buffer,
            rows_per_thread,
            self.width * rows_per_thread,
            self.width,
            self.height,
            &self.options,
            &self.storage,
            &faces,
            shader,
        );
    }

    /// Hands out the frame: each pixel's colour is packed into `buffer`,
    /// row after row from the top, and each pixel is cleared for the next
    /// frame.
    pub fn render_to_buffer(&mut self, buffer: &mut [u32])
        requires
            old(self).wf(),
            old(buffer)@.len() == old(self).dims().0 * old(self).dims().1,
        ensures
            final(self).wf(),
            final(self).dims() == old(self).dims(),
            final(self).options() == old(self).options(),
            final(self).uniforms() == old(self).uniforms(),
            final(self).cells().len() == old(self).cells().len(),
            final(buffer)@.len() == old(buffer)@.len(),
            forall|i: int|
                0 <= i < old(buffer)@.len() ==> #[trigger] final(buffer)@[i] == colour_to_u32(
                    old(self).cells()[i].resolve_colour(),
                ),
            forall|i: int|
                0 <= i < old(buffer)@.len() ==> #[trigger] final(self).cells()[i]
                    == PixelState::cleared(old(self).options().background_colour),
    {
        let n = self.render_buffer.len();
        let mut index: usize = 0;
        while index < n
            invariant
                index <= n,
                n == self.width * self.height,
                self.width == old(self).width,
                self.height == old(self).height,
                self.options == old(self).options,
                self.storage == old(self).storage,
                self.render_buffer@.len() == n,
                buffer@.len() == n,
                forall|i: int|
                    0 <= i < index ==> #[trigger] buffer@[i] == colour_to_u32(
                        old(self).render_buffer@[i]@.resolve_colour(),
                    ),
                forall|i: int|
                    0 <= i < index ==> (#[trigger] self.render_buffer@[i])@ == PixelState::cleared(
                        self.options.background_colour,
                    ),
                forall|i: int|
                    index <= i < n ==> (#[trigger] self.render_buffer@[i])@ == old(
                        self,
                    ).render_buffer@[i]@,
            decreases n - index,
        {
            let colour = self.render_buffer[index].resolve(self.options.background_colour);
            buffer[index] = convert_colour_to_u32(colour);
            index += 1;
        }
    }

    /// The uniforms, to bind what the next draw call reads.
    pub fn storage_mut(&mut self) -> (storage: &mut Storage)
        ensures
            *storage == old(self).uniforms(),
            final(self).uniforms() == *final(storage),
            final(self).wf() == old(self).wf(),
            final(self).dims() == old(self).dims(),
            final(self).options() == old(self).options(),
            final(self).cells() == old(self).cells(),
    {
        &mut self.storage
    }
}

} // verus!
