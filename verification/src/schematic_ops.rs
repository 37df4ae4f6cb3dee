use vstd::prelude::*;
use crate::text::{escape, quoted, int_text, point_list_text, join_points, push_quoted, push_escaped, push_str, push_int, push_points, string_from};

verus! {

/// Builders of the SKILL code that edits the schematic held in `RB_SCH_CV`.
pub struct SchematicOps;

/// The SKILL text that `SchematicOps::create_instance` builds.
pub open spec fn create_instance_text(lib: Seq<char>, cell: Seq<char>, view: Seq<char>, name: Seq<char>, origin: (i64, i64)) -> Seq<char> {
    "let((cv master inst) cv = RB_SCH_CV master = dbOpenCellViewByType("@
        + quoted(lib)
        + " "@
        + quoted(cell)
        + " "@
        + quoted(view)
        + " nil \"r\") inst = dbCreateInst(cv master "@
        + quoted(name)
        + " list("@
        + int_text(origin.0 as int)
        + " "@
        + int_text(origin.1 as int)
        + ") \"R0\" 1) inst)"@
}

/// The SKILL text that `SchematicOps::create_wire` builds.
pub open spec fn create_wire_text(points: Seq<(i64, i64)>, layer: Seq<char>, net_name: Seq<char>) -> Seq<char> {
    "let((cv) cv = RB_SCH_CV dbCreateWire(cv dbMakeNet(cv "@
        + quoted(net_name)
        + ") dbFindLayerByName(cv "@
        + quoted(layer)
        + ") list("@
        + join_points(points, |p: (i64, i64)| point_list_text(p))
        + ")))"@
}

/// The SKILL text that `SchematicOps::create_wire_between_terms` builds.
pub open spec fn create_wire_between_terms_text(inst1: Seq<char>, term1: Seq<char>, inst2: Seq<char>, term2: Seq<char>, net_name: Seq<char>) -> Seq<char> {
    "let((cv net) cv = RB_SCH_CV net = dbMakeNet(cv "@
        + quoted(net_name)
        + ") dbCreateWire(net dbFindTermByName(cv "@
        + quoted(inst1)
        + ") dbFindTermByName(cv "@
        + quoted(inst2)
        + ")))"@
}

/// The SKILL text that `SchematicOps::create_wire_label` builds.
pub open spec fn create_wire_label_text(net_name: Seq<char>, origin: (i64, i64)) -> Seq<char> {
    "let((cv net) cv = RB_SCH_CV net = dbFindNetByName(cv "@
        + quoted(net_name)
        + ") when(net dbCreateLabel(cv net "@
        + quoted(net_name)
        + " list("@
        + int_text(origin.0 as int)
        + " "@
        + int_text(origin.1 as int)
        + ") \"centerCenter\" \"R0\" \"stick\" 0.0625)))"@
}

/// The SKILL text that `SchematicOps::create_pin` builds.
pub open spec fn create_pin_text(net_name: Seq<char>, pin_type: Seq<char>, origin: (i64, i64)) -> Seq<char> {
    "let((cv net pinInst) cv = RB_SCH_CV net = dbMakeNet(cv "@
        + quoted(net_name)
        + ") pinInst = dbCreateInst(cv dbOpenCellViewByType(\"basic\" \"ipin\" \"symbol\" nil \"r\") \"PIN_"@
        + escape(net_name)
        + "\" list("@
        + int_text(origin.0 as int)
        + " "@
        + int_text(origin.1 as int)
        + ") \"R0\" 1) dbCreatePin(net pinInst))"@
}

/// The SKILL text that `SchematicOps::check` builds.
pub open spec fn check_text() -> Seq<char> {
    "let((cv) cv = RB_SCH_CV schCheck(cv))"@
}

/// The SKILL text that `SchematicOps::open_cellview` builds.
pub open spec fn open_cellview_text(lib: Seq<char>, cell: Seq<char>, view: Seq<char>) -> Seq<char> {
    "RB_SCH_CV = dbOpenCellViewByType("@
        + quoted(lib)
        + " "@
        + quoted(cell)
        + " "@
        + quoted(view)
        + " \"schematic\" \"a\")"@
}

/// The SKILL text that `SchematicOps::save` builds.
pub open spec fn save_text() -> Seq<char> {
    "let((cv) cv = RB_SCH_CV dbSave(cv))"@
}

/// The SKILL text that `SchematicOps::set_instance_param` builds.
pub open spec fn set_instance_param_text(inst_name: Seq<char>, param: Seq<char>, value: Seq<char>) -> Seq<char> {
    "let((cv inst) cv = RB_SCH_CV inst = car(setof(i cv~>instances i~>name == "@
        + quoted(inst_name)
        + ")) when(inst dbReplaceProp(inst "@
        + quoted(param)
        + " \"string\" "@
        + quoted(value)
        + ")))"@
}

/// The SKILL text that `SchematicOps::list_instances` builds.
pub open spec fn list_instances_text() -> Seq<char> {
    "let((cv out sep lib cell) cv = RB_SCH_CV out = \"[\" sep = \"\" foreach(inst cv~>instances lib = if(inst~>master inst~>master~>libName \"?\") cell = if(inst~>master inst~>master~>cellName \"?\") out = strcat(out sep sprintf(nil \"{\\\"name\\\":\\\"%s\\\",\\\"master\\\":\\\"%s/%s\\\",\\\"x\\\":%g,\\\"y\\\":%g}\" inst~>name lib cell car(inst~>xy) cadr(inst~>xy))) sep = \",\") strcat(out \"]\"))"@
}

/// The SKILL text that `SchematicOps::list_nets` builds.
pub open spec fn list_nets_text() -> Seq<char> {
    "let((cv out sep) cv = RB_SCH_CV out = \"[\" sep = \"\" foreach(net cv~>nets out = strcat(out sep sprintf(nil \"\\\"%s\\\"\" net~>name)) sep = \",\") strcat(out \"]\"))"@
}

/// The SKILL text that `SchematicOps::list_pins` builds.
pub open spec fn list_pins_text() -> Seq<char> {
    "let((cv out sep) cv = RB_SCH_CV out = \"[\" sep = \"\" foreach(term cv~>terminals out = strcat(out sep sprintf(nil \"{\\\"name\\\":\\\"%s\\\",\\\"direction\\\":\\\"%s\\\"}\" term~>name term~>direction)) sep = \",\") strcat(out \"]\"))"@
}

/// The SKILL text that `SchematicOps::get_instance_params` builds.
pub open spec fn get_instance_params_text(inst_name: Seq<char>) -> Seq<char> {
    "let((cv inst out sep v) cv = RB_SCH_CV inst = car(setof(i cv~>instances strcmp(i~>name "@
        + quoted(inst_name)
        + ")==0)) if(inst then out = \"{\" sep = \"\" foreach(prop inst~>prop when(prop~>name != nil v = prop~>value when(v out = strcat(out sep sprintf(nil \"\\\"%s\\\":\\\"%s\\\"\" prop~>name if(stringp(v) v sprintf(nil \"%L\" v)))) sep = \",\"))) strcat(out \"}\") else \"null\"))"@
}

/// The SKILL text that `SchematicOps::assign_net` builds.
pub open spec fn assign_net_text(inst_name: Seq<char>, term_name: Seq<char>, net_name: Seq<char>) -> Seq<char> {
    "let((inst iterm net) inst = car(setof(i RB_SCH_CV~>instances strcmp(i~>name "@
        + quoted(inst_name)
        + ")==0)) iterm = car(setof(x inst~>instTerms strcmp(x~>name "@
        + quoted(term_name)
        + ")==0)) net = dbMakeNet(RB_SCH_CV "@
        + quoted(net_name)
        + ") when(iterm dbCreateConnByName(net inst iterm~>name)) net)"@
}

impl SchematicOps {
    /// A schematic builder.
    pub fn new() -> (ops: Self) {
        SchematicOps
    }

    /// Places an instance of lib/cell/view named `name` at `origin` in the open schematic.
    pub fn create_instance(&self, lib: &str, cell: &str, view: &str, name: &str, origin: (i64, i64)) -> (r: String)
        ensures
            r@ == create_instance_text(lib@, cell@, view@, name@, origin),
    {
        let mut r = string_from("let((cv master inst) cv = RB_SCH_CV master = dbOpenCellViewByType(");
        push_quoted(&mut r, lib);
        push_str(&mut r, " ");
        push_quoted(&mut r, cell);
        push_str(&mut r, " ");
        push_quoted(&mut r, view);
        push_str(&mut r, " nil \"r\") inst = dbCreateInst(cv master ");
        push_quoted(&mut r, name);
        push_str(&mut r, " list(");
        push_int(&mut r, origin.0);
        push_str(&mut r, " ");
        push_int(&mut r, origin.1);
        push_str(&mut r, ") \"R0\" 1) inst)");
        r
    }

    /// Draws a wire of net `net_name` through `points`, each written `list(x y)`.
    pub fn create_wire(&self, points: &[(i64, i64)], layer: &str, net_name: &str) -> (r: String)
        ensures
            r@ == create_wire_text(points@, layer@, net_name@),
    {
        let mut r = string_from("let((cv) cv = RB_SCH_CV dbCreateWire(cv dbMakeNet(cv ");
        push_quoted(&mut r, net_name);
        push_str(&mut r, ") dbFindLayerByName(cv ");
        push_quoted(&mut r, layer);
        push_str(&mut r, ") list(");
        push_points(&mut r, points, true);
        push_str(&mut r, ")))");
        r
    }

    /// Wires the terminals found under the two instance names onto net `net_name` (the terminal names are not used).
    pub fn create_wire_between_terms(&self, inst1: &str, _term1: &str, inst2: &str, _term2: &str, net_name: &str) -> (r: String)
        ensures
            r@ == create_wire_between_terms_text(inst1@, _term1@, inst2@, _term2@, net_name@),
    {
        let mut r = string_from("let((cv net) cv = RB_SCH_CV net = dbMakeNet(cv ");
        push_quoted(&mut r, net_name);
        push_str(&mut r, ") dbCreateWire(net dbFindTermByName(cv ");
        push_quoted(&mut r, inst1);
        push_str(&mut r, ") dbFindTermByName(cv ");
        push_quoted(&mut r, inst2);
        push_str(&mut r, ")))");
        r
    }

    /// Labels net `net_name` at `origin`.
    pub fn create_wire_label(&self, net_name: &str, origin: (i64, i64)) -> (r: String)
        ensures
            r@ == create_wire_label_text(net_name@, origin),
    {
        let mut r = string_from("let((cv net) cv = RB_SCH_CV net = dbFindNetByName(cv ");
        push_quoted(&mut r, net_name);
        push_str(&mut r, ") when(net dbCreateLabel(cv net ");
        push_quoted(&mut r, net_name);
        push_str(&mut r, " list(");
        push_int(&mut r, origin.0);
        push_str(&mut r, " ");
        push_int(&mut r, origin.1);
        push_str(&mut r, ") \"centerCenter\" \"R0\" \"stick\" 0.0625)))");
        r
    }

    /// Creates an input pin `PIN_<net>` for net `net_name` at `origin` (the pin type is not used).
    pub fn create_pin(&self, net_name: &str, _pin_type: &str, origin: (i64, i64)) -> (r: String)
        ensures
            r@ == create_pin_text(net_name@, _pin_type@, origin),
    {
        let mut r = string_from("let((cv net pinInst) cv = RB_SCH_CV net = dbMakeNet(cv ");
        push_quoted(&mut r, net_name);
        push_str(&mut r, ") pinInst = dbCreateInst(cv dbOpenCellViewByType(\"basic\" \"ipin\" \"symbol\" nil \"r\") \"PIN_");
        push_escaped(&mut r, net_name);
        push_str(&mut r, "\" list(");
        push_int(&mut r, origin.0);
        push_str(&mut r, " ");
        push_int(&mut r, origin.1);
        push_str(&mut r, ") \"R0\" 1) dbCreatePin(net pinInst))");
        r
    }

    /// Runs the schematic check.
    pub fn check(&self) -> (r: String)
        ensures
            r@ == check_text(),
    {
        let mut r = string_from("let((cv) cv = RB_SCH_CV schCheck(cv))");
        r
    }

    /// Opens (creating if absent) lib/cell/view as a schematic for editing and keeps it in `RB_SCH_CV`.
    pub fn open_cellview(&self, lib: &str, cell: &str, view: &str) -> (r: String)
        ensures
            r@ == open_cellview_text(lib@, cell@, view@),
    {
        let mut r = string_from("RB_SCH_CV = dbOpenCellViewByType(");
        push_quoted(&mut r, lib);
        push_str(&mut r, " ");
        push_quoted(&mut r, cell);
        push_str(&mut r, " ");
        push_quoted(&mut r, view);
        push_str(&mut r, " \"schematic\" \"a\")");
        r
    }

    /// Saves the open schematic.
    pub fn save(&self) -> (r: String)
        ensures
            r@ == save_text(),
    {
        let mut r = string_from("let((cv) cv = RB_SCH_CV dbSave(cv))");
        r
    }

    /// Sets a string property of the named instance.
    pub fn set_instance_param(&self, inst_name: &str, param: &str, value: &str) -> (r: String)
        ensures
            r@ == set_instance_param_text(inst_name@, param@, value@),
    {
        let mut r = string_from("let((cv inst) cv = RB_SCH_CV inst = car(setof(i cv~>instances i~>name == ");
        push_quoted(&mut r, inst_name);
        push_str(&mut r, ")) when(inst dbReplaceProp(inst ");
        push_quoted(&mut r, param);
        push_str(&mut r, " \"string\" ");
        push_quoted(&mut r, value);
        push_str(&mut r, ")))");
        r
    }

    /// List all instances in the open cellview. Returns JSON array via sprintf.
    pub fn list_instances(&self) -> (r: String)
        ensures
            r@ == list_instances_text(),
    {
        let mut r = string_from("let((cv out sep lib cell) cv = RB_SCH_CV out = \"[\" sep = \"\" foreach(inst cv~>instances lib = if(inst~>master inst~>master~>libName \"?\") cell = if(inst~>master inst~>master~>cellName \"?\") out = strcat(out sep sprintf(nil \"{\\\"name\\\":\\\"%s\\\",\\\"master\\\":\\\"%s/%s\\\",\\\"x\\\":%g,\\\"y\\\":%g}\" inst~>name lib cell car(inst~>xy) cadr(inst~>xy))) sep = \",\") strcat(out \"]\"))");
        r
    }

    /// List all nets in the open cellview. Returns JSON array.
    pub fn list_nets(&self) -> (r: String)
        ensures
            r@ == list_nets_text(),
    {
        let mut r = string_from("let((cv out sep) cv = RB_SCH_CV out = \"[\" sep = \"\" foreach(net cv~>nets out = strcat(out sep sprintf(nil \"\\\"%s\\\"\" net~>name)) sep = \",\") strcat(out \"]\"))");
        r
    }

    /// List all pins (terminals) in the open cellview. Returns JSON array.
    pub fn list_pins(&self) -> (r: String)
        ensures
            r@ == list_pins_text(),
    {
        let mut r = string_from("let((cv out sep) cv = RB_SCH_CV out = \"[\" sep = \"\" foreach(term cv~>terminals out = strcat(out sep sprintf(nil \"{\\\"name\\\":\\\"%s\\\",\\\"direction\\\":\\\"%s\\\"}\" term~>name term~>direction)) sep = \",\") strcat(out \"]\"))");
        r
    }

    /// Get parameters of a specific instance. Returns JSON object.
    pub fn get_instance_params(&self, inst_name: &str) -> (r: String)
        ensures
            r@ == get_instance_params_text(inst_name@),
    {
        let mut r = string_from("let((cv inst out sep v) cv = RB_SCH_CV inst = car(setof(i cv~>instances strcmp(i~>name ");
        push_quoted(&mut r, inst_name);
        push_str(&mut r, ")==0)) if(inst then out = \"{\" sep = \"\" foreach(prop inst~>prop when(prop~>name != nil v = prop~>value when(v out = strcat(out sep sprintf(nil \"\\\"%s\\\":\\\"%s\\\"\" prop~>name if(stringp(v) v sprintf(nil \"%L\" v)))) sep = \",\"))) strcat(out \"}\") else \"null\"))");
        r
    }

    /// Assign net name to instance terminal.
    /// Creates a named net and connects it to the instTerm via let-scoped
    /// locals: the instance and its terminal are looked up by name, and the
    /// net is attached to that terminal (nothing is connected when the
    /// terminal is not found). The net is the value.
    pub fn assign_net(&self, inst_name: &str, term_name: &str, net_name: &str) -> (r: String)
        ensures
            r@ == assign_net_text(inst_name@, term_name@, net_name@),
    {
        let mut r = string_from("let((inst iterm net) inst = car(setof(i RB_SCH_CV~>instances strcmp(i~>name ");
        push_quoted(&mut r, inst_name);
        push_str(&mut r, ")==0)) iterm = car(setof(x inst~>instTerms strcmp(x~>name ");
        push_quoted(&mut r, term_name);
        push_str(&mut r, ")==0)) net = dbMakeNet(RB_SCH_CV ");
        push_quoted(&mut r, net_name);
        push_str(&mut r, ") when(iterm dbCreateConnByName(net inst iterm~>name)) net)");
        r
    }
}

impl Default for SchematicOps {
    fn default() -> (ops: Self) {
        SchematicOps
    }
}

} // verus!

verus! {

/// Setting a parameter sets the property named by the parameter to the
/// given value, as a string: the call replaces property `param` with type
/// `"string"` and value `value` on the instance found by name; changing the
/// value changes only what follows the property's name and type.
pub proof fn law_param_sets_named_property(inst_name: Seq<char>, param: Seq<char>, value: Seq<char>, other: Seq<char>)
    ensures
        crate::chars::contains(set_instance_param_text(inst_name, param, value),
            "dbReplaceProp(inst "@ + quoted(param) + " \"string\" "@ + quoted(value) + ")"@),
        crate::chars::contains(set_instance_param_text(inst_name, param, value),
            "i~>name == "@ + quoted(inst_name) + "))"@),
        ({
            let t = set_instance_param_text(inst_name, param, value);
            let u = set_instance_param_text(inst_name, param, other);
            let k = t.len() - quoted(value).len() - 3;
            &&& 0 <= k
            &&& t.take(k) == u.take(u.len() - quoted(other).len() - 3)
            &&& t.skip(k) == quoted(value) + ")))"@
        }),
{
    reveal_strlit("let((cv inst) cv = RB_SCH_CV inst = car(setof(i cv~>instances i~>name == ");
    reveal_strlit(")) when(inst dbReplaceProp(inst ");
    reveal_strlit(" \"string\" ");
    reveal_strlit(")))");
    reveal_strlit(")");
    reveal_strlit("))");
    reveal_strlit("dbReplaceProp(inst ");
    reveal_strlit("i~>name == ");
    let head = "let((cv inst) cv = RB_SCH_CV inst = car(setof(i cv~>instances i~>name == "@;
    let mid = ")) when(inst dbReplaceProp(inst "@;
    let t = set_instance_param_text(inst_name, param, value);
    let u = set_instance_param_text(inst_name, param, other);
    let pre = head + quoted(inst_name) + mid + quoted(param) + " \"string\" "@;
    assert(t =~= pre + quoted(value) + ")))"@);
    assert(u =~= pre + quoted(other) + ")))"@);
    let k = t.len() - quoted(value).len() - 3;
    assert(t.take(k) =~= pre);
    assert(u.take(u.len() - quoted(other).len() - 3) =~= pre);
    assert(t.skip(k) =~= quoted(value) + ")))"@);
    // the property call
    let needle = "dbReplaceProp(inst "@ + quoted(param) + " \"string\" "@ + quoted(value) + ")"@;
    let i = (head + quoted(inst_name) + ")) when(inst "@).len() as int;
    reveal_strlit(")) when(inst ");
    assert(mid =~= ")) when(inst "@ + "dbReplaceProp(inst "@);
    assert(t.subrange(i, i + needle.len()) =~= needle);
    assert(crate::chars::occurs_at(t, needle, i));
    // the instance lookup
    let needle2 = "i~>name == "@ + quoted(inst_name) + "))"@;
    let head0 = "let((cv inst) cv = RB_SCH_CV inst = car(setof(i cv~>instances "@;
    reveal_strlit("let((cv inst) cv = RB_SCH_CV inst = car(setof(i cv~>instances ");
    assert(head =~= head0 + "i~>name == "@);
    let j = head0.len() as int;
    assert(t.subrange(j, j + needle2.len()) =~= needle2);
    assert(crate::chars::occurs_at(t, needle2, j));
}

} // verus!

verus! {

proof fn lemma_sch_instance(lib: Seq<char>, cell: Seq<char>, view: Seq<char>, name: Seq<char>, origin: (i64, i64), points: Seq<(i64, i64)>, layer: Seq<char>, net: Seq<char>, pin_type: Seq<char>, inst: Seq<char>, term: Seq<char>, inst2: Seq<char>, term2: Seq<char>)
    ensures
        crate::chars::contains(create_instance_text(lib, cell, view, name, origin), quoted(lib) + " "@ + quoted(cell) + " "@ + quoted(view)),
        crate::chars::contains(create_instance_text(lib, cell, view, name, origin),
            "dbCreateInst(cv master "@ + quoted(name) + " list("@ + int_text(origin.0 as int) + " "@ + int_text(origin.1 as int)),
{
    let h = "let((cv master inst) cv = RB_SCH_CV master = dbOpenCellViewByType("@;
    let n1 = quoted(lib) + " "@ + quoted(cell) + " "@ + quoted(view);
    reveal_strlit(" nil \"r\") inst = dbCreateInst(cv master ");
    reveal_strlit(" nil \"r\") inst = ");
    reveal_strlit("dbCreateInst(cv master ");
    let m = " nil \"r\") inst = "@;
    assert(" nil \"r\") inst = dbCreateInst(cv master "@ =~= m + "dbCreateInst(cv master "@);
    let n2 = "dbCreateInst(cv master "@ + quoted(name) + " list("@ + int_text(origin.0 as int) + " "@ + int_text(origin.1 as int);
    let tl = ") \"R0\" 1) inst)"@;
    let t = create_instance_text(lib, cell, view, name, origin);
    assert(t =~= h + n1 + (m + n2 + tl));
    crate::chars::lemma_contains_middle(h, n1, m + n2 + tl);
    assert(t =~= (h + n1 + m) + n2 + tl);
    crate::chars::lemma_contains_middle(h + n1 + m, n2, tl);
}

proof fn lemma_sch_instance_cv(lib: Seq<char>, cell: Seq<char>, view: Seq<char>, name: Seq<char>, origin: (i64, i64), points: Seq<(i64, i64)>, layer: Seq<char>, net: Seq<char>, pin_type: Seq<char>, inst: Seq<char>, term: Seq<char>, inst2: Seq<char>, term2: Seq<char>)
    ensures
        crate::chars::contains(open_cellview_text(lib, cell, view), "dbOpenCellViewByType("@ + quoted(lib) + " "@ + quoted(cell) + " "@ + quoted(view)),
{
    reveal_strlit("RB_SCH_CV = dbOpenCellViewByType(");
    reveal_strlit("RB_SCH_CV = ");
    reveal_strlit("dbOpenCellViewByType(");
    let ch = "RB_SCH_CV = "@;
    assert("RB_SCH_CV = dbOpenCellViewByType("@ =~= ch + "dbOpenCellViewByType("@);
    let n7 = "dbOpenCellViewByType("@ + quoted(lib) + " "@ + quoted(cell) + " "@ + quoted(view);
    let ct = " \"schematic\" \"a\")"@;
    assert(open_cellview_text(lib, cell, view) =~= ch + n7 + ct);
    crate::chars::lemma_contains_middle(ch, n7, ct);
}

proof fn lemma_sch_wire(lib: Seq<char>, cell: Seq<char>, view: Seq<char>, name: Seq<char>, origin: (i64, i64), points: Seq<(i64, i64)>, layer: Seq<char>, net: Seq<char>, pin_type: Seq<char>, inst: Seq<char>, term: Seq<char>, inst2: Seq<char>, term2: Seq<char>)
    ensures
        crate::chars::contains(create_wire_text(points, layer, net),
            "dbMakeNet(cv "@ + quoted(net) + ") dbFindLayerByName(cv "@ + quoted(layer)),
{
    reveal_strlit("let((cv) cv = RB_SCH_CV dbCreateWire(cv dbMakeNet(cv ");
    reveal_strlit("let((cv) cv = RB_SCH_CV dbCreateWire(cv ");
    reveal_strlit("dbMakeNet(cv ");
    let wh = "let((cv) cv = RB_SCH_CV dbCreateWire(cv "@;
    assert("let((cv) cv = RB_SCH_CV dbCreateWire(cv dbMakeNet(cv "@ =~= wh + "dbMakeNet(cv "@);
    let n3 = "dbMakeNet(cv "@ + quoted(net) + ") dbFindLayerByName(cv "@ + quoted(layer);
    let wt = ") list("@ + crate::text::join_points(points, |p: (i64, i64)| crate::text::point_list_text(p)) + ")))"@;
    assert(create_wire_text(points, layer, net) =~= wh + n3 + wt);
    crate::chars::lemma_contains_middle(wh, n3, wt);
}

proof fn lemma_sch_label(lib: Seq<char>, cell: Seq<char>, view: Seq<char>, name: Seq<char>, origin: (i64, i64), points: Seq<(i64, i64)>, layer: Seq<char>, net: Seq<char>, pin_type: Seq<char>, inst: Seq<char>, term: Seq<char>, inst2: Seq<char>, term2: Seq<char>)
    ensures
        crate::chars::contains(create_wire_label_text(net, origin),
            "dbFindNetByName(cv "@ + quoted(net) + ") when(net dbCreateLabel(cv net "@ + quoted(net) + " list("@
                + int_text(origin.0 as int) + " "@ + int_text(origin.1 as int)),
{
    reveal_strlit("let((cv net) cv = RB_SCH_CV net = dbFindNetByName(cv ");
    reveal_strlit("let((cv net) cv = RB_SCH_CV net = ");
    reveal_strlit("dbFindNetByName(cv ");
    let lh = "let((cv net) cv = RB_SCH_CV net = "@;
    assert("let((cv net) cv = RB_SCH_CV net = dbFindNetByName(cv "@ =~= lh + "dbFindNetByName(cv "@);
    let n4 = "dbFindNetByName(cv "@ + quoted(net) + ") when(net dbCreateLabel(cv net "@ + quoted(net) + " list("@
        + int_text(origin.0 as int) + " "@ + int_text(origin.1 as int);
    let lt = ") \"centerCenter\" \"R0\" \"stick\" 0.0625)))"@;
    assert(create_wire_label_text(net, origin) =~= lh + n4 + lt);
    crate::chars::lemma_contains_middle(lh, n4, lt);
}

proof fn lemma_sch_pin(lib: Seq<char>, cell: Seq<char>, view: Seq<char>, name: Seq<char>, origin: (i64, i64), points: Seq<(i64, i64)>, layer: Seq<char>, net: Seq<char>, pin_type: Seq<char>, inst: Seq<char>, term: Seq<char>, inst2: Seq<char>, term2: Seq<char>)
    ensures
        crate::chars::contains(create_pin_text(net, pin_type, origin), "dbMakeNet(cv "@ + quoted(net)),
        crate::chars::contains(create_pin_text(net, pin_type, origin),
            "\"PIN_"@ + escape(net) + "\" list("@ + int_text(origin.0 as int) + " "@ + int_text(origin.1 as int)),
{
    reveal_strlit("dbMakeNet(cv ");
    reveal_strlit("let((cv net pinInst) cv = RB_SCH_CV net = dbMakeNet(cv ");
    reveal_strlit("let((cv net pinInst) cv = RB_SCH_CV net = ");
    reveal_strlit(") pinInst = dbCreateInst(cv dbOpenCellViewByType(\"basic\" \"ipin\" \"symbol\" nil \"r\") \"PIN_");
    reveal_strlit(") pinInst = dbCreateInst(cv dbOpenCellViewByType(\"basic\" \"ipin\" \"symbol\" nil \"r\") ");
    reveal_strlit("\"PIN_");
    let ph = "let((cv net pinInst) cv = RB_SCH_CV net = "@;
    assert("let((cv net pinInst) cv = RB_SCH_CV net = dbMakeNet(cv "@ =~= ph + "dbMakeNet(cv "@);
    let pm = ") pinInst = dbCreateInst(cv dbOpenCellViewByType(\"basic\" \"ipin\" \"symbol\" nil \"r\") "@;
    assert(") pinInst = dbCreateInst(cv dbOpenCellViewByType(\"basic\" \"ipin\" \"symbol\" nil \"r\") \"PIN_"@ =~= pm + "\"PIN_"@);
    let n5 = "dbMakeNet(cv "@ + quoted(net);
    let n6 = "\"PIN_"@ + escape(net) + "\" list("@ + int_text(origin.0 as int) + " "@ + int_text(origin.1 as int);
    let pt = ") \"R0\" 1) dbCreatePin(net pinInst))"@;
    let pin = create_pin_text(net, pin_type, origin);
    assert(pin =~= ph + n5 + (pm + n6 + pt));
    crate::chars::lemma_contains_middle(ph, n5, pm + n6 + pt);
    assert(pin =~= (ph + n5 + pm) + n6 + pt);
    crate::chars::lemma_contains_middle(ph + n5 + pm, n6, pt);
}

proof fn lemma_sch_assign(lib: Seq<char>, cell: Seq<char>, view: Seq<char>, name: Seq<char>, origin: (i64, i64), points: Seq<(i64, i64)>, layer: Seq<char>, net: Seq<char>, pin_type: Seq<char>, inst: Seq<char>, term: Seq<char>, inst2: Seq<char>, term2: Seq<char>)
    ensures
        crate::chars::contains(assign_net_text(inst, term, net), "strcmp(i~>name "@ + quoted(inst)),
        crate::chars::contains(assign_net_text(inst, term, net), "strcmp(x~>name "@ + quoted(term)),
        crate::chars::contains(assign_net_text(inst, term, net), "dbMakeNet(RB_SCH_CV "@ + quoted(net)),
{
    let a = assign_net_text(inst, term, net);
    reveal_strlit("let((inst iterm net) inst = car(setof(i RB_SCH_CV~>instances strcmp(i~>name ");
    reveal_strlit("let((inst iterm net) inst = car(setof(i RB_SCH_CV~>instances ");
    reveal_strlit("strcmp(i~>name ");
    reveal_strlit(")==0)) iterm = car(setof(x inst~>instTerms strcmp(x~>name ");
    reveal_strlit(")==0)) iterm = car(setof(x inst~>instTerms ");
    reveal_strlit("strcmp(x~>name ");
    reveal_strlit(")==0)) net = dbMakeNet(RB_SCH_CV ");
    reveal_strlit(")==0)) net = ");
    reveal_strlit("dbMakeNet(RB_SCH_CV ");
    let a0 = "let((inst iterm net) inst = car(setof(i RB_SCH_CV~>instances "@;
    let a1 = ")==0)) iterm = car(setof(x inst~>instTerms "@;
    let a2 = ")==0)) net = "@;
    let at = ") when(iterm dbCreateConnByName(net inst iterm~>name)) net)"@;
    assert("let((inst iterm net) inst = car(setof(i RB_SCH_CV~>instances strcmp(i~>name "@ =~= a0 + "strcmp(i~>name "@);
    assert(")==0)) iterm = car(setof(x inst~>instTerms strcmp(x~>name "@ =~= a1 + "strcmp(x~>name "@);
    assert(")==0)) net = dbMakeNet(RB_SCH_CV "@ =~= a2 + "dbMakeNet(RB_SCH_CV "@);
    let ni = "strcmp(i~>name "@ + quoted(inst);
    let nt = "strcmp(x~>name "@ + quoted(term);
    let nn = "dbMakeNet(RB_SCH_CV "@ + quoted(net);
    assert(a =~= a0 + ni + (a1 + nt + a2 + nn + at));
    crate::chars::lemma_contains_middle(a0, ni, a1 + nt + a2 + nn + at);
    assert(a =~= (a0 + ni + a1) + nt + (a2 + nn + at));
    crate::chars::lemma_contains_middle(a0 + ni + a1, nt, a2 + nn + at);
    assert(a =~= (a0 + ni + a1 + nt + a2) + nn + at);
    crate::chars::lemma_contains_middle(a0 + ni + a1 + nt + a2, nn, at);
}

proof fn lemma_sch_between(lib: Seq<char>, cell: Seq<char>, view: Seq<char>, name: Seq<char>, origin: (i64, i64), points: Seq<(i64, i64)>, layer: Seq<char>, net: Seq<char>, pin_type: Seq<char>, inst: Seq<char>, term: Seq<char>, inst2: Seq<char>, term2: Seq<char>)
    ensures
        crate::chars::contains(create_wire_between_terms_text(inst, term, inst2, term2, net),
            "dbMakeNet(cv "@ + quoted(net) + ") dbCreateWire(net dbFindTermByName(cv "@ + quoted(inst)
                + ") dbFindTermByName(cv "@ + quoted(inst2)),
{
    reveal_strlit("dbMakeNet(cv ");
    reveal_strlit("let((cv net) cv = RB_SCH_CV net = ");
    reveal_strlit("let((cv net) cv = RB_SCH_CV net = dbMakeNet(cv ");
    let bh = "let((cv net) cv = RB_SCH_CV net = "@;
    assert("let((cv net) cv = RB_SCH_CV net = dbMakeNet(cv "@ =~= bh + "dbMakeNet(cv "@);
    let n8 = "dbMakeNet(cv "@ + quoted(net) + ") dbCreateWire(net dbFindTermByName(cv "@ + quoted(inst)
        + ") dbFindTermByName(cv "@ + quoted(inst2);
    assert(create_wire_between_terms_text(inst, term, inst2, term2, net) =~= bh + n8 + ")))"@);
    crate::chars::lemma_contains_middle(bh, n8, ")))"@);
}

/// Each schematic call puts its arguments where the database functions take
/// them: an instance opens the library, cell and view in that order and is
/// created under its name at the origin; a wire makes the named net on the
/// layer given; a label is found and written for the net at the origin; a
/// pin makes its net and a pin instance named after it at the origin; the
/// cellview opens library, cell and view in order; a net assignment looks up
/// the instance, then its terminal, and makes the net named; a wire between
/// terminals makes the named net between the first and second instance.
pub proof fn law_schematic_arguments_in_place(lib: Seq<char>, cell: Seq<char>, view: Seq<char>, name: Seq<char>,
    origin: (i64, i64), points: Seq<(i64, i64)>, layer: Seq<char>, net: Seq<char>, pin_type: Seq<char>,
    inst: Seq<char>, term: Seq<char>, inst2: Seq<char>, term2: Seq<char>)
    ensures
        crate::chars::contains(create_instance_text(lib, cell, view, name, origin), quoted(lib) + " "@ + quoted(cell) + " "@ + quoted(view)),
        crate::chars::contains(create_instance_text(lib, cell, view, name, origin),
            "dbCreateInst(cv master "@ + quoted(name) + " list("@ + int_text(origin.0 as int) + " "@ + int_text(origin.1 as int)),
        crate::chars::contains(create_wire_text(points, layer, net),
            "dbMakeNet(cv "@ + quoted(net) + ") dbFindLayerByName(cv "@ + quoted(layer)),
        crate::chars::contains(create_wire_label_text(net, origin),
            "dbFindNetByName(cv "@ + quoted(net) + ") when(net dbCreateLabel(cv net "@ + quoted(net) + " list("@
                + int_text(origin.0 as int) + " "@ + int_text(origin.1 as int)),
        crate::chars::contains(create_pin_text(net, pin_type, origin), "dbMakeNet(cv "@ + quoted(net)),
        crate::chars::contains(create_pin_text(net, pin_type, origin),
            "\"PIN_"@ + escape(net) + "\" list("@ + int_text(origin.0 as int) + " "@ + int_text(origin.1 as int)),
        crate::chars::contains(open_cellview_text(lib, cell, view), "dbOpenCellViewByType("@ + quoted(lib) + " "@ + quoted(cell) + " "@ + quoted(view)),
        crate::chars::contains(assign_net_text(inst, term, net), "strcmp(i~>name "@ + quoted(inst)),
        crate::chars::contains(assign_net_text(inst, term, net), "strcmp(x~>name "@ + quoted(term)),
        crate::chars::contains(assign_net_text(inst, term, net), "dbMakeNet(RB_SCH_CV "@ + quoted(net)),
        crate::chars::contains(create_wire_between_terms_text(inst, term, inst2, term2, net),
            "dbMakeNet(cv "@ + quoted(net) + ") dbCreateWire(net dbFindTermByName(cv "@ + quoted(inst)
                + ") dbFindTermByName(cv "@ + quoted(inst2)),
{
    lemma_sch_instance(lib, cell, view, name, origin, points, layer, net, pin_type, inst, term, inst2, term2);
    lemma_sch_instance_cv(lib, cell, view, name, origin, points, layer, net, pin_type, inst, term, inst2, term2);
    lemma_sch_wire(lib, cell, view, name, origin, points, layer, net, pin_type, inst, term, inst2, term2);
    lemma_sch_label(lib, cell, view, name, origin, points, layer, net, pin_type, inst, term, inst2, term2);
    lemma_sch_pin(lib, cell, view, name, origin, points, layer, net, pin_type, inst, term, inst2, term2);
    lemma_sch_assign(lib, cell, view, name, origin, points, layer, net, pin_type, inst, term, inst2, term2);
    lemma_sch_between(lib, cell, view, name, origin, points, layer, net, pin_type, inst, term, inst2, term2);
}

} // verus!
