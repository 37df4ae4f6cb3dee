use vstd::prelude::*;
use crate::text::{escape, quoted, int_text, point_text, join_points, push_quoted, push_escaped, push_str, push_int, push_points, string_from};

verus! {

/// Builders of the SKILL code that edits layouts.
pub struct LayoutOps;

/// The SKILL text that `LayoutOps::create_rect` builds.
pub open spec fn create_rect_text(layer: Seq<char>, purpose: Seq<char>, bbox: Seq<(i64, i64)>) -> Seq<char> {
    "rodCreateRect(?layer "@
        + quoted(layer)
        + " ?purpose "@
        + quoted(purpose)
        + " ?bBox (("@
        + int_text(bbox[0].0 as int)
        + " "@
        + int_text(bbox[0].1 as int)
        + ") ("@
        + int_text(bbox[1].0 as int)
        + " "@
        + int_text(bbox[1].1 as int)
        + ")))"@
}

/// The SKILL text that `LayoutOps::create_polygon` builds.
pub open spec fn create_polygon_text(layer: Seq<char>, purpose: Seq<char>, points: Seq<(i64, i64)>) -> Seq<char> {
    "rodCreatePolygon(?layer "@
        + quoted(layer)
        + " ?purpose "@
        + quoted(purpose)
        + " ?points list("@
        + join_points(points, |p: (i64, i64)| point_text(p))
        + "))"@
}

/// The SKILL text that `LayoutOps::create_path` builds.
pub open spec fn create_path_text(layer: Seq<char>, purpose: Seq<char>, width: i64, points: Seq<(i64, i64)>) -> Seq<char> {
    "rodCreatePath(?layer "@
        + quoted(layer)
        + " ?purpose "@
        + quoted(purpose)
        + " ?width "@
        + int_text(width as int)
        + " ?points list("@
        + join_points(points, |p: (i64, i64)| point_text(p))
        + "))"@
}

/// The SKILL text that `LayoutOps::create_via` builds.
pub open spec fn create_via_text(via_def: Seq<char>, origin: (i64, i64)) -> Seq<char> {
    "rodCreateVia(?viaHeader "@
        + quoted(via_def)
        + " ?origin "@
        + int_text(origin.0 as int)
        + ":"@
        + int_text(origin.1 as int)
        + ")"@
}

/// The SKILL text that `LayoutOps::create_label` builds.
pub open spec fn create_label_text(layer: Seq<char>, purpose: Seq<char>, text: Seq<char>, origin: (i64, i64)) -> Seq<char> {
    "dbCreateLabel(dbGetCurCellView() dbGetLayerByName(dbGetCurCellView() "@
        + quoted(layer)
        + ") "@
        + int_text(origin.0 as int)
        + ":"@
        + int_text(origin.1 as int)
        + " "@
        + quoted(text)
        + " \"centerCenter\" \"R0\" \"stick\" 0.0625)"@
}

/// The SKILL text that `LayoutOps::create_instance` builds.
pub open spec fn create_instance_text(lib: Seq<char>, cell: Seq<char>, view: Seq<char>, origin: (i64, i64), orient: Seq<char>) -> Seq<char> {
    "dbCreateInst(dbOpenCellViewByType("@
        + quoted(lib)
        + " "@
        + quoted(cell)
        + " "@
        + quoted(view)
        + " nil \"r\") nil nil "@
        + int_text(origin.0 as int)
        + ":"@
        + int_text(origin.1 as int)
        + " "@
        + quoted(orient)
        + " 1)"@
}

/// The SKILL text that `LayoutOps::set_active_lpp` builds.
pub open spec fn set_active_lpp_text(layer: Seq<char>, purpose: Seq<char>) -> Seq<char> {
    "leSetEntryLayer(list("@
        + quoted(layer)
        + " "@
        + quoted(purpose)
        + "))"@
}

/// The SKILL text that `LayoutOps::fit_view` builds.
pub open spec fn fit_view_text() -> Seq<char> {
    "hiRedraw() hiZoomBox(hiGetCurrentWindow() geGetWindowBox(hiGetCurrentWindow()) geGetEditCellView()~>bBox)"@
}

/// The SKILL text that `LayoutOps::read_summary` builds.
pub open spec fn read_summary_text() -> Seq<char> {
    "let((cv) cv = geGetEditCellView() list(cv~>libName cv~>cellName cv~>viewName cv~>bBox length(cv~>instances) length(cv~>nets)))"@
}

/// The SKILL text that `LayoutOps::read_geometry` builds.
pub open spec fn read_geometry_text(layer: Seq<char>, purpose: Seq<char>) -> Seq<char> {
    "let((cv shapes) cv = geGetEditCellView() shapes = nil foreach(shape cv~>shapes when(shape~>lpp == list("@
        + quoted(layer)
        + " "@
        + quoted(purpose)
        + ") shapes = cons(shape~>bBox shapes))) shapes)"@
}

/// The SKILL text that `LayoutOps::delete_shapes_on_layer` builds.
pub open spec fn delete_shapes_on_layer_text(layer: Seq<char>, purpose: Seq<char>) -> Seq<char> {
    "let((cv) cv = geGetEditCellView() foreach(shape cv~>shapes when(shape~>lpp == list("@
        + quoted(layer)
        + " "@
        + quoted(purpose)
        + ") dbDeleteObject(shape))))"@
}

/// The SKILL text that `LayoutOps::highlight_net` builds.
pub open spec fn highlight_net_text(net_name: Seq<char>) -> Seq<char> {
    "let((cv net) cv = geGetEditCellView() net = dbFindNetByName(cv "@
        + quoted(net_name)
        + ") when(net hiHighlight(net)))"@
}

impl LayoutOps {
    /// A layout builder.
    pub fn new() -> (ops: Self) {
        LayoutOps
    }

    /// `bbox`: `[(ll_x, ll_y), (ur_x, ur_y)]` — lower-left and upper-right corners.
    /// Formats to SKILL `?bBox ((ll_x ll_y) (ur_x ur_y))`.
    pub fn create_rect(&self, layer: &str, purpose: &str, bbox: &[(i64, i64); 2]) -> (r: String)
        ensures
            r@ == create_rect_text(layer@, purpose@, bbox@),
    {
        let mut r = string_from("rodCreateRect(?layer ");
        push_quoted(&mut r, layer);
        push_str(&mut r, " ?purpose ");
        push_quoted(&mut r, purpose);
        push_str(&mut r, " ?bBox ((");
        push_int(&mut r, bbox[0].0);
        push_str(&mut r, " ");
        push_int(&mut r, bbox[0].1);
        push_str(&mut r, ") (");
        push_int(&mut r, bbox[1].0);
        push_str(&mut r, " ");
        push_int(&mut r, bbox[1].1);
        push_str(&mut r, ")))");
        r
    }

    /// A polygon through `points`, each written `x y`.
    pub fn create_polygon(&self, layer: &str, purpose: &str, points: &[(i64, i64)]) -> (r: String)
        ensures
            r@ == create_polygon_text(layer@, purpose@, points@),
    {
        let mut r = string_from("rodCreatePolygon(?layer ");
        push_quoted(&mut r, layer);
        push_str(&mut r, " ?purpose ");
        push_quoted(&mut r, purpose);
        push_str(&mut r, " ?points list(");
        push_points(&mut r, points, false);
        push_str(&mut r, "))");
        r
    }

    /// A path of the given width through `points`.
    pub fn create_path(&self, layer: &str, purpose: &str, width: i64, points: &[(i64, i64)]) -> (r: String)
        ensures
            r@ == create_path_text(layer@, purpose@, width, points@),
    {
        let mut r = string_from("rodCreatePath(?layer ");
        push_quoted(&mut r, layer);
        push_str(&mut r, " ?purpose ");
        push_quoted(&mut r, purpose);
        push_str(&mut r, " ?width ");
        push_int(&mut r, width);
        push_str(&mut r, " ?points list(");
        push_points(&mut r, points, false);
        push_str(&mut r, "))");
        r
    }

    /// A via of the given definition at `origin`.
    pub fn create_via(&self, via_def: &str, origin: (i64, i64)) -> (r: String)
        ensures
            r@ == create_via_text(via_def@, origin),
    {
        let mut r = string_from("rodCreateVia(?viaHeader ");
        push_quoted(&mut r, via_def);
        push_str(&mut r, " ?origin ");
        push_int(&mut r, origin.0);
        push_str(&mut r, ":");
        push_int(&mut r, origin.1);
        push_str(&mut r, ")");
        r
    }

    /// A label on `layer` at `origin` (the purpose is not used).
    pub fn create_label(&self, layer: &str, _purpose: &str, text: &str, origin: (i64, i64)) -> (r: String)
        ensures
            r@ == create_label_text(layer@, _purpose@, text@, origin),
    {
        let mut r = string_from("dbCreateLabel(dbGetCurCellView() dbGetLayerByName(dbGetCurCellView() ");
        push_quoted(&mut r, layer);
        push_str(&mut r, ") ");
        push_int(&mut r, origin.0);
        push_str(&mut r, ":");
        push_int(&mut r, origin.1);
        push_str(&mut r, " ");
        push_quoted(&mut r, text);
        push_str(&mut r, " \"centerCenter\" \"R0\" \"stick\" 0.0625)");
        r
    }

    /// An instance of lib/cell/view at `origin` with orientation `orient`.
    pub fn create_instance(&self, lib: &str, cell: &str, view: &str, origin: (i64, i64), orient: &str) -> (r: String)
        ensures
            r@ == create_instance_text(lib@, cell@, view@, origin, orient@),
    {
        let mut r = string_from("dbCreateInst(dbOpenCellViewByType(");
        push_quoted(&mut r, lib);
        push_str(&mut r, " ");
        push_quoted(&mut r, cell);
        push_str(&mut r, " ");
        push_quoted(&mut r, view);
        push_str(&mut r, " nil \"r\") nil nil ");
        push_int(&mut r, origin.0);
        push_str(&mut r, ":");
        push_int(&mut r, origin.1);
        push_str(&mut r, " ");
        push_quoted(&mut r, orient);
        push_str(&mut r, " 1)");
        r
    }

    /// Makes layer/purpose the entry layer.
    pub fn set_active_lpp(&self, layer: &str, purpose: &str) -> (r: String)
        ensures
            r@ == set_active_lpp_text(layer@, purpose@),
    {
        let mut r = string_from("leSetEntryLayer(list(");
        push_quoted(&mut r, layer);
        push_str(&mut r, " ");
        push_quoted(&mut r, purpose);
        push_str(&mut r, "))");
        r
    }

    /// Redraws and zooms to the edited cellview.
    pub fn fit_view(&self) -> (r: String)
        ensures
            r@ == fit_view_text(),
    {
        let mut r = string_from("hiRedraw() hiZoomBox(hiGetCurrentWindow() geGetWindowBox(hiGetCurrentWindow()) geGetEditCellView()~>bBox)");
        r
    }

    /// Library, cell, view, bounding box and counts of the edited cellview.
    pub fn read_summary(&self) -> (r: String)
        ensures
            r@ == read_summary_text(),
    {
        let mut r = string_from("let((cv) cv = geGetEditCellView() list(cv~>libName cv~>cellName cv~>viewName cv~>bBox length(cv~>instances) length(cv~>nets)))");
        r
    }

    /// Bounding boxes of the shapes on layer/purpose.
    pub fn read_geometry(&self, layer: &str, purpose: &str) -> (r: String)
        ensures
            r@ == read_geometry_text(layer@, purpose@),
    {
        let mut r = string_from("let((cv shapes) cv = geGetEditCellView() shapes = nil foreach(shape cv~>shapes when(shape~>lpp == list(");
        push_quoted(&mut r, layer);
        push_str(&mut r, " ");
        push_quoted(&mut r, purpose);
        push_str(&mut r, ") shapes = cons(shape~>bBox shapes))) shapes)");
        r
    }

    /// Deletes every shape on layer/purpose.
    pub fn delete_shapes_on_layer(&self, layer: &str, purpose: &str) -> (r: String)
        ensures
            r@ == delete_shapes_on_layer_text(layer@, purpose@),
    {
        let mut r = string_from("let((cv) cv = geGetEditCellView() foreach(shape cv~>shapes when(shape~>lpp == list(");
        push_quoted(&mut r, layer);
        push_str(&mut r, " ");
        push_quoted(&mut r, purpose);
        push_str(&mut r, ") dbDeleteObject(shape))))");
        r
    }

    /// Highlights the named net.
    pub fn highlight_net(&self, net_name: &str) -> (r: String)
        ensures
            r@ == highlight_net_text(net_name@),
    {
        let mut r = string_from("let((cv net) cv = geGetEditCellView() net = dbFindNetByName(cv ");
        push_quoted(&mut r, net_name);
        push_str(&mut r, ") when(net hiHighlight(net)))");
        r
    }
}

impl Default for LayoutOps {
    fn default() -> (ops: Self) {
        LayoutOps
    }
}

} // verus!

verus! {

/// The layer and purpose arguments of a shape call, as the rectangle,
/// polygon and path calls all write them.
pub open spec fn layer_purpose_args(layer: Seq<char>, purpose: Seq<char>) -> Seq<char> {
    "(?layer "@ + quoted(layer) + " ?purpose "@ + quoted(purpose) + " "@
}

/// Paths, rectangles and polygons are drawn on the layer and purpose given,
/// in that order: each call opens with `?layer` and the layer, then
/// `?purpose` and the purpose, and the path then gives its width.
pub proof fn law_shapes_use_layer_then_purpose(layer: Seq<char>, purpose: Seq<char>, width: i64,
    points: Seq<(i64, i64)>, bbox: Seq<(i64, i64)>)
    ensures
        crate::chars::starts_with(create_path_text(layer, purpose, width, points),
            "rodCreatePath"@ + layer_purpose_args(layer, purpose) + "?width "@ + int_text(width as int)),
        crate::chars::starts_with(create_rect_text(layer, purpose, bbox),
            "rodCreateRect"@ + layer_purpose_args(layer, purpose)),
        crate::chars::starts_with(create_polygon_text(layer, purpose, points),
            "rodCreatePolygon"@ + layer_purpose_args(layer, purpose)),
{
    reveal_strlit("rodCreatePath(?layer ");
    reveal_strlit("rodCreatePath");
    reveal_strlit("(?layer ");
    reveal_strlit(" ?purpose ");
    reveal_strlit(" ?width ");
    reveal_strlit(" ");
    reveal_strlit("?width ");
    reveal_strlit("rodCreateRect(?layer ");
    reveal_strlit("rodCreateRect");
    reveal_strlit(" ?bBox ((");
    reveal_strlit("rodCreatePolygon(?layer ");
    reveal_strlit("rodCreatePolygon");
    reveal_strlit(" ?points list(");
    let lp = layer_purpose_args(layer, purpose);
    let p = "rodCreatePath"@ + lp + "?width "@ + int_text(width as int);
    let pt = create_path_text(layer, purpose, width, points);
    assert(pt.take(p.len() as int) =~= p);
    let r = "rodCreateRect"@ + lp;
    let rt = create_rect_text(layer, purpose, bbox);
    assert(rt.take(r.len() as int) =~= r);
    let g = "rodCreatePolygon"@ + lp;
    let gt = create_polygon_text(layer, purpose, points);
    assert(gt.take(g.len() as int) =~= g);
}

} // verus!

verus! {

/// Each layout call passes its arguments where the API takes them: a label
/// goes on the layer given, at the origin, with the text given; an instance
/// opens the library, cell and view in that order and is placed at the
/// origin with the orientation given; a via uses the via definition at the
/// origin; the entry layer, the geometry read and the shape deletion all
/// name the layer then the purpose.
pub proof fn law_layout_arguments_in_place(layer: Seq<char>, purpose: Seq<char>, text: Seq<char>, origin: (i64, i64),
    lib: Seq<char>, cell: Seq<char>, view: Seq<char>, orient: Seq<char>, via_def: Seq<char>)
    ensures
        crate::chars::contains(create_label_text(layer, purpose, text, origin),
            quoted(layer) + ") "@ + int_text(origin.0 as int) + ":"@ + int_text(origin.1 as int) + " "@ + quoted(text)),
        crate::chars::contains(create_instance_text(lib, cell, view, origin, orient),
            quoted(lib) + " "@ + quoted(cell) + " "@ + quoted(view)),
        crate::chars::contains(create_instance_text(lib, cell, view, origin, orient),
            int_text(origin.0 as int) + ":"@ + int_text(origin.1 as int) + " "@ + quoted(orient)),
        crate::chars::contains(create_via_text(via_def, origin),
            quoted(via_def) + " ?origin "@ + int_text(origin.0 as int) + ":"@ + int_text(origin.1 as int)),
        crate::chars::contains(set_active_lpp_text(layer, purpose), "list("@ + quoted(layer) + " "@ + quoted(purpose)),
        crate::chars::contains(read_geometry_text(layer, purpose), "list("@ + quoted(layer) + " "@ + quoted(purpose)),
        crate::chars::contains(delete_shapes_on_layer_text(layer, purpose), "list("@ + quoted(layer) + " "@ + quoted(purpose)),
{
    reveal_strlit("leSetEntryLayer(list(");
    reveal_strlit("leSetEntryLayer(");
    reveal_strlit("list(");
    reveal_strlit("let((cv shapes) cv = geGetEditCellView() shapes = nil foreach(shape cv~>shapes when(shape~>lpp == list(");
    reveal_strlit("let((cv shapes) cv = geGetEditCellView() shapes = nil foreach(shape cv~>shapes when(shape~>lpp == ");
    reveal_strlit("let((cv) cv = geGetEditCellView() foreach(shape cv~>shapes when(shape~>lpp == list(");
    reveal_strlit("let((cv) cv = geGetEditCellView() foreach(shape cv~>shapes when(shape~>lpp == ");
    let n1 = quoted(layer) + ") "@ + int_text(origin.0 as int) + ":"@ + int_text(origin.1 as int) + " "@ + quoted(text);
    let h1 = "dbCreateLabel(dbGetCurCellView() dbGetLayerByName(dbGetCurCellView() "@;
    let t1 = " \"centerCenter\" \"R0\" \"stick\" 0.0625)"@;
    assert(create_label_text(layer, purpose, text, origin) =~= h1 + n1 + t1);
    crate::chars::lemma_contains_middle(h1, n1, t1);
    let h2 = "dbCreateInst(dbOpenCellViewByType("@;
    let n2 = quoted(lib) + " "@ + quoted(cell) + " "@ + quoted(view);
    let n3 = int_text(origin.0 as int) + ":"@ + int_text(origin.1 as int) + " "@ + quoted(orient);
    let m2 = " nil \"r\") nil nil "@;
    assert(create_instance_text(lib, cell, view, origin, orient) =~= h2 + n2 + (m2 + n3 + " 1)"@));
    crate::chars::lemma_contains_middle(h2, n2, m2 + n3 + " 1)"@);
    assert(create_instance_text(lib, cell, view, origin, orient) =~= (h2 + n2 + m2) + n3 + " 1)"@);
    crate::chars::lemma_contains_middle(h2 + n2 + m2, n3, " 1)"@);
    let n4 = quoted(via_def) + " ?origin "@ + int_text(origin.0 as int) + ":"@ + int_text(origin.1 as int);
    assert(create_via_text(via_def, origin) =~= "rodCreateVia(?viaHeader "@ + n4 + ")"@);
    crate::chars::lemma_contains_middle("rodCreateVia(?viaHeader "@, n4, ")"@);
    let n5 = "list("@ + quoted(layer) + " "@ + quoted(purpose);
    assert("leSetEntryLayer(list("@ =~= "leSetEntryLayer("@ + "list("@);
    assert(set_active_lpp_text(layer, purpose) =~= "leSetEntryLayer("@ + n5 + "))"@);
    crate::chars::lemma_contains_middle("leSetEntryLayer("@, n5, "))"@);
    let g = "let((cv shapes) cv = geGetEditCellView() shapes = nil foreach(shape cv~>shapes when(shape~>lpp == "@;
    assert("let((cv shapes) cv = geGetEditCellView() shapes = nil foreach(shape cv~>shapes when(shape~>lpp == list("@ =~= g + "list("@);
    let gt = ") shapes = cons(shape~>bBox shapes))) shapes)"@;
    assert(read_geometry_text(layer, purpose) =~= g + n5 + gt);
    crate::chars::lemma_contains_middle(g, n5, gt);
    let d = "let((cv) cv = geGetEditCellView() foreach(shape cv~>shapes when(shape~>lpp == "@;
    assert("let((cv) cv = geGetEditCellView() foreach(shape cv~>shapes when(shape~>lpp == list("@ =~= d + "list("@);
    let dt = ") dbDeleteObject(shape))))"@;
    assert(delete_shapes_on_layer_text(layer, purpose) =~= d + n5 + dt);
    crate::chars::lemma_contains_middle(d, n5, dt);
}

} // verus!
