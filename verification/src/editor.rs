use vstd::prelude::*;
use crate::bridge::VirtuosoClient;
use crate::chars::strings_view;
use crate::layout_ops::{self, LayoutOps};
use crate::schematic_ops::{self, SchematicOps};
use crate::text::string_from;

verus! {

fn push_command(commands: &mut Vec<String>, cmd: String)
    ensures
        strings_view(final(commands)@) == strings_view(old(commands)@).push(cmd@),
{
    let ghost before = commands@;
    commands.push(cmd);
    assert(strings_view(commands@) =~= strings_view(before).push(cmd@));
}

/// A batch of layout edits for one cell, sent together as one SKILL block.
pub struct LayoutEditor<'a> {
    client: &'a VirtuosoClient,
    lib: String,
    cell: String,
    commands: Vec<String>,
}

impl<'a> LayoutEditor<'a> {
    /// The SKILL commands queued so far, in order.
    pub closed spec fn queued(&self) -> Seq<Seq<char>> {
        strings_view(self.commands@)
    }

    /// The library and cell being edited.
    pub closed spec fn target(&self) -> (Seq<char>, Seq<char>) {
        (self.lib@, self.cell@)
    }

    /// The client the batch is sent through.
    pub closed spec fn via(&self) -> &'a VirtuosoClient {
        self.client
    }

    /// An empty batch for `lib`/`cell`.
    pub fn new(client: &'a VirtuosoClient, lib: &str, cell: &str) -> (e: Self)
        ensures
            e.queued() == Seq::<Seq<char>>::empty(),
            e.target() == (lib@, cell@),
            e.via() == client,
    {
        let e = LayoutEditor { client, lib: string_from(lib), cell: string_from(cell), commands: Vec::new() };
        assert(strings_view(e.commands@) =~= Seq::<Seq<char>>::empty());
        e
    }

    /// The SKILL commands queued so far.
    pub fn commands(&self) -> (r: &Vec<String>)
        ensures
            strings_view(r@) == self.queued(),
    {
        &self.commands
    }

    /// The client the batch is sent through.
    pub fn client(&self) -> (r: &'a VirtuosoClient)
        ensures
            r == self.via(),
    {
        self.client
    }

    /// Queues a rectangle on `layer`/`purpose` with corners `bbox`.
    pub fn add_rect(&mut self, layer: &str, purpose: &str, bbox: [(i64, i64); 2])
        ensures
            final(self).queued() == old(self).queued().push(layout_ops::create_rect_text(layer@, purpose@, bbox@)),
            final(self).target() == old(self).target(),
            final(self).via() == old(self).via(),
    {
        let ops = LayoutOps::new();
        let cmd = ops.create_rect(layer, purpose, &bbox);
        push_command(&mut self.commands, cmd);
    }

    /// Queues a polygon through `points`.
    pub fn add_polygon(&mut self, layer: &str, purpose: &str, points: Vec<(i64, i64)>)
        ensures
            final(self).queued() == old(self).queued().push(layout_ops::create_polygon_text(layer@, purpose@, points@)),
            final(self).target() == old(self).target(),
            final(self).via() == old(self).via(),
    {
        let ops = LayoutOps::new();
        let cmd = ops.create_polygon(layer, purpose, points.as_slice());
        push_command(&mut self.commands, cmd);
    }

    /// Queues a path of the given width through `points`.
    pub fn add_path(&mut self, layer: &str, purpose: &str, width: i64, points: Vec<(i64, i64)>)
        ensures
            final(self).queued() == old(self).queued().push(layout_ops::create_path_text(layer@, purpose@, width, points@)),
            final(self).target() == old(self).target(),
            final(self).via() == old(self).via(),
    {
        let ops = LayoutOps::new();
        let cmd = ops.create_path(layer, purpose, width, points.as_slice());
        push_command(&mut self.commands, cmd);
    }

    /// Queues a via of `via_def` at `origin`.
    pub fn add_via(&mut self, via_def: &str, origin: (i64, i64))
        ensures
            final(self).queued() == old(self).queued().push(layout_ops::create_via_text(via_def@, origin)),
            final(self).target() == old(self).target(),
            final(self).via() == old(self).via(),
    {
        let ops = LayoutOps::new();
        let cmd = ops.create_via(via_def, origin);
        push_command(&mut self.commands, cmd);
    }

    /// Queues an instance of `lib`/`cell`/`view` at `origin`.
    pub fn add_instance(&mut self, lib: &str, cell: &str, view: &str, origin: (i64, i64), orient: &str)
        ensures
            final(self).queued() == old(self).queued().push(layout_ops::create_instance_text(lib@, cell@, view@, origin, orient@)),
            final(self).target() == old(self).target(),
            final(self).via() == old(self).via(),
    {
        let ops = LayoutOps::new();
        let cmd = ops.create_instance(lib, cell, view, origin, orient);
        push_command(&mut self.commands, cmd);
    }
}

/// A batch of schematic edits, sent together as one SKILL block.
pub struct SchematicEditor<'a> {
    client: &'a VirtuosoClient,
    commands: Vec<String>,
}

impl<'a> SchematicEditor<'a> {
    /// The SKILL commands queued so far, in order.
    pub closed spec fn queued(&self) -> Seq<Seq<char>> {
        strings_view(self.commands@)
    }

    /// The client the batch is sent through.
    pub closed spec fn via(&self) -> &'a VirtuosoClient {
        self.client
    }

    /// An empty batch.
    pub fn new(client: &'a VirtuosoClient) -> (e: Self)
        ensures
            e.queued() == Seq::<Seq<char>>::empty(),
            e.via() == client,
    {
        let e = SchematicEditor { client, commands: Vec::new() };
        assert(strings_view(e.commands@) =~= Seq::<Seq<char>>::empty());
        e
    }

    /// The SKILL commands queued so far.
    pub fn commands(&self) -> (r: &Vec<String>)
        ensures
            strings_view(r@) == self.queued(),
    {
        &self.commands
    }

    /// The client the batch is sent through.
    pub fn client(&self) -> (r: &'a VirtuosoClient)
        ensures
            r == self.via(),
    {
        self.client
    }

    /// Queues an instance `name` of `lib`/`cell`/`view` at `origin`.
    pub fn add_instance(&mut self, lib: &str, cell: &str, view: &str, name: &str, origin: (i64, i64))
        ensures
            final(self).queued() == old(self).queued().push(schematic_ops::create_instance_text(lib@, cell@, view@, name@, origin)),
            final(self).via() == old(self).via(),
    {
        let ops = SchematicOps::new();
        let cmd = ops.create_instance(lib, cell, view, name, origin);
        push_command(&mut self.commands, cmd);
    }

    /// Queues a wire of net `net_name` through `points`.
    pub fn add_wire(&mut self, points: Vec<(i64, i64)>, layer: &str, net_name: &str)
        ensures
            final(self).queued() == old(self).queued().push(schematic_ops::create_wire_text(points@, layer@, net_name@)),
            final(self).via() == old(self).via(),
    {
        let ops = SchematicOps::new();
        let cmd = ops.create_wire(points.as_slice(), layer, net_name);
        push_command(&mut self.commands, cmd);
    }

    /// Queues a net label at `origin`.
    pub fn add_label(&mut self, net_name: &str, origin: (i64, i64))
        ensures
            final(self).queued() == old(self).queued().push(schematic_ops::create_wire_label_text(net_name@, origin)),
            final(self).via() == old(self).via(),
    {
        let ops = SchematicOps::new();
        let cmd = ops.create_wire_label(net_name, origin);
        push_command(&mut self.commands, cmd);
    }

    /// Queues a pin of net `net_name` at `origin`.
    pub fn add_pin(&mut self, net_name: &str, pin_type: &str, origin: (i64, i64))
        ensures
            final(self).queued() == old(self).queued().push(schematic_ops::create_pin_text(net_name@, pin_type@, origin)),
            final(self).via() == old(self).via(),
    {
        let ops = SchematicOps::new();
        let cmd = ops.create_pin(net_name, pin_type, origin);
        push_command(&mut self.commands, cmd);
    }

    /// Queues setting parameter `param` of instance `inst_name` to `value`.
    pub fn set_param(&mut self, inst_name: &str, param: &str, value: &str)
        ensures
            final(self).queued() == old(self).queued().push(schematic_ops::set_instance_param_text(inst_name@, param@, value@)),
            final(self).via() == old(self).via(),
    {
        let ops = SchematicOps::new();
        let cmd = ops.set_instance_param(inst_name, param, value);
        push_command(&mut self.commands, cmd);
    }

    /// Queues connecting terminal `term_name` of `inst_name` to `net_name`.
    pub fn assign_net(&mut self, inst_name: &str, term_name: &str, net_name: &str)
        ensures
            final(self).queued() == old(self).queued().push(schematic_ops::assign_net_text(inst_name@, term_name@, net_name@)),
            final(self).via() == old(self).via(),
    {
        let ops = SchematicOps::new();
        let cmd = ops.assign_net(inst_name, term_name, net_name);
        push_command(&mut self.commands, cmd);
    }
}

} // verus!
