//! The sketchybar command lines that create, change and remove bar
//! components. Each function returns the argument lists, in order, that the
//! `sketchybar` program is run with.

use vstd::prelude::*;
use crate::bar::Bar;
use crate::components::{Bracket, Space};
use crate::event::{spec_event_name, BarEvent};
use crate::item::{BarItem, ItemBuilder, PopupChild, Slider};
use crate::pieces::dec_u32;
use crate::text::{concat2, spec_dec, string_of};
use crate::types::{
    props_view, render_props, spec_render_props, ComponentPosition, Property, PropView,
    RelativePosition, ToSketchybarArgs,
};

verus! {

/// The words of one command line.
pub open spec fn cmd_view(c: Vec<String>) -> Seq<Seq<char>> {
    c@.map_values(|s: String| s@)
}

/// The words of a sequence of command lines.
pub open spec fn cmds_view(cs: Seq<Vec<String>>) -> Seq<Seq<Seq<char>>> {
    cs.map_values(|c: Vec<String>| cmd_view(c))
}

/// The words of a list of strings.
pub open spec fn words_view(v: Seq<String>) -> Seq<Seq<char>> {
    v.map_values(|s: String| s@)
}

/// Appends one word.
fn push_word(cmd: &mut Vec<String>, w: &str)
    ensures
        cmd_view(*final(cmd)) == cmd_view(*old(cmd)).push(w@),
{
    cmd.push(string_of(w));
    assert(cmd_view(*cmd) =~= cmd_view(*old(cmd)).push(w@));
}

/// Appends one owned word.
fn push_owned(cmd: &mut Vec<String>, w: String)
    ensures
        cmd_view(*final(cmd)) == cmd_view(*old(cmd)).push(w@),
{
    cmd.push(w);
    assert(cmd_view(*cmd) =~= cmd_view(*old(cmd)).push(w@));
}

/// Appends words.
fn push_words(cmd: &mut Vec<String>, words: Vec<String>)
    ensures
        cmd_view(*final(cmd)) == cmd_view(*old(cmd)) + words_view(words@),
{
    let mut w = words;
    let ghost before = cmd@;
    cmd.append(&mut w);
    assert(cmd_view(*cmd) =~= cmd_view(*old(cmd)) + words_view(words@));
}

/// Appends the command-line forms of properties.
fn push_props(cmd: &mut Vec<String>, args: Vec<Property>)
    ensures
        cmd_view(*final(cmd)) == cmd_view(*old(cmd)) + spec_render_props(props_view(args@)),
{
    let r = render_props(&args);
    push_words(cmd, r);
}

/// A command line of one word.
fn cmd1(a: &str) -> (r: Vec<String>)
    ensures
        cmd_view(r) == seq![a@],
{
    let mut v = Vec::new();
    push_word(&mut v, a);
    v
}

/// Appends a command line to a list of them.
fn push_cmd(cmds: &mut Vec<Vec<String>>, c: Vec<String>)
    ensures
        cmds_view(final(cmds)@) == cmds_view(old(cmds)@).push(cmd_view(c)),
{
    cmds.push(c);
    assert(cmds_view(cmds@) =~= cmds_view(old(cmds)@).push(cmd_view(c)));
}

/// Appends command lines to a list of them.
fn push_cmds(cmds: &mut Vec<Vec<String>>, more: Vec<Vec<String>>)
    ensures
        cmds_view(final(cmds)@) == cmds_view(old(cmds)@) + cmds_view(more@),
{
    let mut m = more;
    cmds.append(&mut m);
    assert(cmds_view(cmds@) =~= cmds_view(old(cmds)@) + cmds_view(more@));
}

// ----- single commands ----------------------------------------------------------

/// `--bar` followed by the bar's settings.
pub fn add_bar(bar: &Bar) -> (r: Vec<String>)
    ensures
        cmd_view(r) == seq!["--bar"@] + spec_render_props(bar.spec_args()),
{
    let mut c = cmd1("--bar");
    push_props(&mut c, bar.to_sketchybar_args());
    c
}

/// `--default` followed by the given settings, unchanged.
pub fn set_default(args: Vec<String>) -> (r: Vec<String>)
    ensures
        cmd_view(r) == seq!["--default"@] + words_view(args@),
{
    let mut c = cmd1("--default");
    push_words(&mut c, args);
    c
}

/// The command that applies `args` to the item `name`.
pub open spec fn spec_set_cmd(name: Seq<char>, args: Seq<PropView>) -> Seq<Seq<char>> {
    seq!["--set"@, name] + spec_render_props(args)
}

/// `--set name` followed by the settings of `item`.
pub fn set_item<T: ToSketchybarArgs>(item_name: &str, item: &T) -> (r: Vec<String>)
    ensures
        cmd_view(r) == spec_set_cmd(item_name@, item.spec_args()),
{
    let mut c = cmd1("--set");
    push_word(&mut c, item_name);
    push_props(&mut c, item.to_sketchybar_args());
    c
}

/// `--set name` followed by the given settings, unchanged.
pub fn set_args(item_name: &str, args: Vec<String>) -> (r: Vec<String>)
    ensures
        cmd_view(r) == seq!["--set"@, item_name@] + words_view(args@),
{
    let mut c = cmd1("--set");
    push_word(&mut c, item_name);
    push_words(&mut c, args);
    c
}

/// `--animate curve duration --set name` followed by the settings of `item`.
pub fn animate_set_item<T: ToSketchybarArgs>(
    curve: &str,
    duration: u32,
    item_name: &str,
    item: &T,
) -> (r: Vec<String>)
    ensures
        cmd_view(r) == seq!["--animate"@, curve@, spec_dec(duration as nat)] + spec_set_cmd(
            item_name@,
            item.spec_args(),
        ),
{
    let mut c = cmd1("--animate");
    push_word(&mut c, curve);
    push_owned(&mut c, dec_u32(duration));
    let s = set_item(item_name, item);
    push_words(&mut c, s);
    c
}

/// Registers a custom event.
pub fn add_event(event: &str) -> (r: Vec<String>)
    ensures
        cmd_view(r) == seq!["--add"@, "event"@, event@],
{
    let mut c = cmd1("--add");
    push_word(&mut c, "event");
    push_word(&mut c, event);
    c
}

/// The names of events, in order.
pub open spec fn spec_event_names(events: Seq<BarEvent>) -> Seq<Seq<char>> {
    events.map_values(|e: BarEvent| spec_event_name(e))
}

/// Subscribes the item to the events, in order.
pub fn subscribe(item: &str, events: Vec<BarEvent>) -> (r: Vec<String>)
    ensures
        cmd_view(r) == seq!["--subscribe"@, item@] + spec_event_names(events@),
{
    let mut c = cmd1("--subscribe");
    push_word(&mut c, item);
    let mut i: usize = 0;
    while i < events.len()
        invariant
            i <= events@.len(),
            cmd_view(c) == seq!["--subscribe"@, item@] + spec_event_names(
                events@.subrange(0, i as int),
            ),
        decreases events@.len() - i,
    {
        let ghost before = cmd_view(c);
        push_owned(&mut c, events[i].name());
        i = i + 1;
        assert(spec_event_names(events@.subrange(0, i as int)) =~= spec_event_names(
            events@.subrange(0, i - 1),
        ).push(spec_event_name(events@[i - 1])));
    }
    assert(events@.subrange(0, i as int) =~= events@);
    c
}

/// Forces all items to update.
pub fn update() -> (r: Vec<String>)
    ensures
        cmd_view(r) == seq!["--update"@],
{
    cmd1("--update")
}

/// Triggers an event.
pub fn trigger_evt(evt: BarEvent) -> (r: Vec<String>)
    ensures
        cmd_view(r) == seq!["--trigger"@, spec_event_name(evt)],
{
    let mut c = cmd1("--trigger");
    push_owned(&mut c, evt.name());
    c
}

/// Triggers an event carrying `data` as its `INFO`.
pub fn trigger_evt_with_data(evt: &str, data: &str) -> (r: Vec<String>)
    ensures
        cmd_view(r) == seq!["--trigger"@, evt@, "INFO="@ + data@],
{
    let mut c = cmd1("--trigger");
    push_word(&mut c, evt);
    push_owned(&mut c, concat2("INFO=", data));
    c
}

/// Renames an item.
pub fn rename_item(item_name: &str, new_name: &str) -> (r: Vec<String>)
    ensures
        cmd_view(r) == seq!["--rename"@, item_name@, new_name@],
{
    let mut c = cmd1("--rename");
    push_word(&mut c, item_name);
    push_word(&mut c, new_name);
    c
}

/// Removes an item.
pub fn remove_item(item_name: &str) -> (r: Vec<String>)
    ensures
        cmd_view(r) == seq!["--remove"@, item_name@],
{
    let mut c = cmd1("--remove");
    push_word(&mut c, item_name);
    c
}

/// The place of a clone: the one given, else after the cloned item.
pub open spec fn spec_rel_or_default(rel: Option<RelativePosition>) -> RelativePosition {
    match rel {
        Some(p) => p,
        None => RelativePosition::After,
    }
}

/// Clones an item under a new name, before or after the item it copies.
pub fn clone_item(item_name: &str, new_name: &str, rel_pos: Option<RelativePosition>) -> (r: Vec<
    String,
>)
    ensures
        cmd_view(r) == seq![
            "--clone"@,
            item_name@,
            new_name@,
            spec_rel_or_default(rel_pos).spec_text(),
        ],
{
    let mut c = cmd1("--clone");
    push_word(&mut c, item_name);
    push_word(&mut c, new_name);
    let p = match rel_pos {
        Some(p) => p,
        None => RelativePosition::default(),
    };
    push_owned(&mut c, p.render());
    c
}

// ----- creating components --------------------------------------------------------

/// The position word of an `--add`, when one is given.
pub open spec fn spec_opt_pos_word(pos: Option<Seq<char>>) -> Seq<Seq<char>> {
    match pos {
        Some(p) => seq![p],
        None => seq![],
    }
}

/// The commands that replace a component of kind `kind`: remove any one of
/// that name, then add it (at `pos` when given) and apply its settings.
pub open spec fn spec_special_cmds(
    kind: Seq<char>,
    name: Seq<char>,
    pos: Option<Seq<char>>,
    args: Seq<PropView>,
) -> Seq<Seq<Seq<char>>> {
    seq![
        seq!["--remove"@, name],
        seq!["--add"@, kind, name] + spec_opt_pos_word(pos) + spec_set_cmd(name, args),
    ]
}

/// The position text of an optional position.
pub open spec fn spec_pos_text(pos: Option<ComponentPosition>) -> Option<Seq<char>> {
    match pos {
        Some(p) => Some(p.spec_text()),
        None => None,
    }
}

/// Adds a component of kind `kind` (`item`, `slider`, `space`, ...) named
/// `name`, replacing any component of that name.
pub fn add_special_item<T: ToSketchybarArgs>(
    kind: &str,
    name: &str,
    parent_or_pos: Option<ComponentPosition>,
    item: &T,
) -> (r: Vec<Vec<String>>)
    ensures
        cmds_view(r@) == spec_special_cmds(
            kind@,
            name@,
            spec_pos_text(parent_or_pos),
            item.spec_args(),
        ),
{
    let mut cmds: Vec<Vec<String>> = Vec::new();
    push_cmd(&mut cmds, remove_item(name));
    let mut c = cmd1("--add");
    push_word(&mut c, kind);
    push_word(&mut c, name);
    match &parent_or_pos {
        Some(p) => push_owned(&mut c, p.render()),
        None => {},
    }
    assert(cmd_view(c) =~= seq!["--add"@, kind@, name@] + spec_opt_pos_word(
        spec_pos_text(parent_or_pos),
    ));
    let s = set_item(name, item);
    push_words(&mut c, s);
    assert(cmd_view(c) =~= seq!["--add"@, kind@, name@] + spec_opt_pos_word(
        spec_pos_text(parent_or_pos),
    ) + spec_set_cmd(name@, item.spec_args()));
    push_cmd(&mut cmds, c);
    assert(cmds_view(cmds@) =~= spec_special_cmds(
        kind@,
        name@,
        spec_pos_text(parent_or_pos),
        item.spec_args(),
    ));
    cmds
}

/// Adds a slider at its position.
pub fn add_slider(slider: &Slider) -> (r: Vec<Vec<String>>)
    ensures
        cmds_view(r@) == spec_special_cmds(
            "slider"@,
            slider.name@,
            Some(slider.position.spec_text()),
            slider.spec_args(),
        ),
{
    add_special_item("slider", slider.name.as_str(), Some(slider.position.duplicate()), slider)
}

/// Adds a space at its position.
pub fn add_space(space: &Space) -> (r: Vec<Vec<String>>)
    ensures
        cmds_view(r@) == spec_special_cmds(
            "space"@,
            space.name@,
            Some(space.position.spec_text()),
            space.spec_args(),
        ),
{
    add_special_item("space", space.name.as_str(), Some(space.position.duplicate()), space)
}

/// The commands that replace a bracket: remove any one of that name, then
/// add it around its members and apply its settings.
pub open spec fn spec_bracket_cmds(b: Bracket) -> Seq<Seq<Seq<char>>> {
    seq![
        seq!["--remove"@, b.name@],
        seq!["--add"@, "bracket"@, b.name@] + words_view(b.members@) + spec_set_cmd(
            b.name@,
            b.spec_args(),
        ),
    ]
}

/// Adds a bracket around its members.
pub fn add_bracket(bracket: &Bracket) -> (r: Vec<Vec<String>>)
    ensures
        cmds_view(r@) == spec_bracket_cmds(*bracket),
{
    let mut cmds: Vec<Vec<String>> = Vec::new();
    push_cmd(&mut cmds, remove_item(bracket.name.as_str()));
    let mut c = cmd1("--add");
    push_word(&mut c, "bracket");
    push_word(&mut c, bracket.name.as_str());
    let mut i: usize = 0;
    while i < bracket.members.len()
        invariant
            i <= bracket.members@.len(),
            cmd_view(c) == seq!["--add"@, "bracket"@, bracket.name@] + words_view(
                bracket.members@.subrange(0, i as int),
            ),
        decreases bracket.members@.len() - i,
    {
        push_owned(&mut c, bracket.members[i].clone());
        i = i + 1;
        assert(words_view(bracket.members@.subrange(0, i as int)) =~= words_view(
            bracket.members@.subrange(0, i - 1),
        ).push(bracket.members@[i - 1]@));
    }
    assert(bracket.members@.subrange(0, i as int) =~= bracket.members@);
    let s = set_item(bracket.name.as_str(), bracket);
    push_words(&mut c, s);
    push_cmd(&mut cmds, c);
    assert(cmds_view(cmds@) =~= spec_bracket_cmds(*bracket));
    cmds
}

/// The position an item is added at: the one set, else the left.
pub open spec fn spec_pos_or_default(pos: Option<ComponentPosition>) -> ComponentPosition {
    match pos {
        Some(p) => p,
        None => ComponentPosition::Left,
    }
}

/// The commands that add `item` placed at `at` (its geometry position, or
/// the popup of its parent), followed by those of its popup children, each
/// placed in the popup of `item`.
pub open spec fn spec_item_cmds(item: BarItem, at: Option<ComponentPosition>) -> Seq<
    Seq<Seq<char>>,
>
    decreases item, 2int,
{
    spec_item_head(item, at) + spec_children_cmds(item.name, item.children@)
}

/// The commands that add popup children, in order, into the popup of `parent`.
pub open spec fn spec_children_cmds(parent: String, cs: Seq<PopupChild>) -> Seq<Seq<Seq<char>>>
    decreases cs, 1int,
{
    if cs.len() == 0 {
        seq![]
    } else {
        spec_children_cmds(parent, cs.subrange(0, cs.len() - 1)) + spec_child_cmds(
            parent,
            cs[cs.len() - 1],
        )
    }
}

/// The commands that add one popup child into the popup of `parent`.
pub open spec fn spec_child_cmds(parent: String, c: PopupChild) -> Seq<Seq<Seq<char>>>
    decreases c, 0int,
{
    match c {
        PopupChild::Item(b) => spec_item_cmds(*b, Some(ComponentPosition::Popup(parent))),
        PopupChild::Slider(s) => spec_special_cmds(
            "slider"@,
            s.name@,
            Some("popup."@ + parent@),
            s.spec_args(),
        ),
    }
}

/// The first two commands of `spec_item_cmds`: remove, then add and set.
pub open spec fn spec_item_head(item: BarItem, at: Option<ComponentPosition>) -> Seq<
    Seq<Seq<char>>,
> {
    seq![
        seq!["--remove"@, item.name@],
        seq!["--add"@, "item"@, item.name@, spec_pos_or_default(at).spec_text()] + spec_set_cmd(
            item.name@,
            item.props.spec_args_at(at),
        ),
    ]
}

/// The `--add` command of an item at a given position word, with its settings.
fn add_cmd(name: &str, pos: String, args: Vec<Property>) -> (r: Vec<String>)
    ensures
        cmd_view(r) == seq!["--add"@, "item"@, name@, pos@] + spec_set_cmd(
            name@,
            props_view(args@),
        ),
{
    let mut c = cmd1("--add");
    push_word(&mut c, "item");
    push_word(&mut c, name);
    push_owned(&mut c, pos);
    push_word(&mut c, "--set");
    push_word(&mut c, name);
    let ghost before = cmd_view(c);
    push_props(&mut c, args);
    assert(cmd_view(c) =~= seq!["--add"@, "item"@, name@, pos@] + spec_set_cmd(
        name@,
        props_view(args@),
    ));
    c
}

fn item_head(item: &BarItem, at: &Option<ComponentPosition>) -> (r: Vec<Vec<String>>)
    ensures
        cmds_view(r@) == spec_item_head(*item, *at),
{
    let mut cmds: Vec<Vec<String>> = Vec::new();
    push_cmd(&mut cmds, remove_item(item.name.as_str()));
    let p = match at {
        Some(p) => p.duplicate(),
        None => ComponentPosition::Left,
    };
    let c = add_cmd(item.name.as_str(), p.render(), item.props.args_at(at));
    push_cmd(&mut cmds, c);
    assert(cmds_view(cmds@) =~= spec_item_head(*item, *at));
    cmds
}

fn child_cmds(parent: &String, c: &PopupChild) -> (r: Vec<Vec<String>>)
    ensures
        cmds_view(r@) == spec_child_cmds(*parent, *c),
    decreases c,
{
    let pos = Some(ComponentPosition::Popup(parent.clone()));
    match c {
        PopupChild::Item(b) => item_cmds(&**b, &pos),
        PopupChild::Slider(s) => add_special_item("slider", s.name.as_str(), pos, &**s),
    }
}

fn item_cmds(item: &BarItem, at: &Option<ComponentPosition>) -> (r: Vec<Vec<String>>)
    ensures
        cmds_view(r@) == spec_item_cmds(*item, *at),
    decreases item,
{
    let mut cmds = item_head(item, at);
    let ghost head = cmds_view(cmds@);
    let mut i: usize = 0;
    while i < item.children.len()
        invariant
            i <= item.children@.len(),
            cmds_view(cmds@) == head + spec_children_cmds(
                item.name,
                item.children@.subrange(0, i as int),
            ),
        decreases item.children@.len() - i,
    {
        let ghost sub = item.children@.subrange(0, i + 1);
        assert(sub.subrange(0, sub.len() - 1) =~= item.children@.subrange(0, i as int));
        proof {
            assert(decreases_to!(item => item.children));
            assert(decreases_to!(item.children => item.children@));
            assert(decreases_to!(item.children@ => item.children@[i as int]));
        }
        let more = child_cmds(&item.name, &item.children[i]);
        push_cmds(&mut cmds, more);
        assert(sub[sub.len() - 1] == item.children@[i as int]);
        assert(cmds_view(cmds@) =~= head + spec_children_cmds(item.name, sub));
        i = i + 1;
    }
    assert(item.children@.subrange(0, i as int) =~= item.children@);
    cmds
}

/// Adds an item at its position, then its popup children into its popup.
/// Each component is first removed, so adding replaces an existing one.
pub fn add_item(item: &BarItem) -> (r: Vec<Vec<String>>)
    ensures
        cmds_view(r@) == spec_item_cmds(*item, item.props.geometry.position),
{
    item_cmds(item, &item.props.geometry.position)
}

// ----- updating an item's icon and label ------------------------------------------

/// One `key=value` setting when `v` holds a text.
pub open spec fn spec_opt_text(key: Seq<char>, v: Option<Seq<char>>) -> Seq<PropView> {
    match v {
        Some(t) => seq![(key, t)],
        None => seq![],
    }
}

/// The command that sets the icon and the label of the item `name`, each
/// only when given.
pub open spec fn spec_set_texts_cmd(
    name: Seq<char>,
    icon: Option<Seq<char>>,
    label: Option<Seq<char>>,
) -> Seq<Seq<char>> {
    spec_set_cmd(name, spec_opt_text("icon"@, icon) + spec_opt_text("label"@, label))
}

/// The view of an optional string slice.
pub open spec fn opt_str_view(v: Option<&str>) -> Option<Seq<char>> {
    match v {
        Some(s) => Some(s@),
        None => None,
    }
}

/// Sets the icon and the label of an item (`BarItem::new(name)`, with
/// `icon` and `label` applied when given, then `set`).
pub fn set_texts(item_name: &str, icon: Option<&str>, label: Option<&str>) -> (r: Vec<String>)
    ensures
        cmd_view(r) == spec_set_texts_cmd(item_name@, opt_str_view(icon), opt_str_view(label)),
{
    let mut item = BarItem::new(item_name);
    match icon {
        Some(i) => {
            item = item.icon(i);
        },
        None => {},
    }
    match label {
        Some(l) => {
            item = item.label(l);
        },
        None => {},
    }
    proof {
        crate::props::lemma_texts_only_args(item.props);
        assert(crate::pieces::spec_opt_string("icon"@, item.props.icon.icon) =~= spec_opt_text(
            "icon"@,
            opt_str_view(icon),
        ));
        assert(crate::pieces::spec_opt_string("label"@, item.props.label.label) =~= spec_opt_text(
            "label"@,
            opt_str_view(label),
        ));
    }
    item.set()
}

impl BarItem {
    /// The commands that add this item and its popup children.
    pub fn add(&self) -> (r: Vec<Vec<String>>)
        ensures
            cmds_view(r@) == spec_item_cmds(*self, self.props.geometry.position),
    {
        add_item(self)
    }

    /// The command that applies this item's settings.
    pub fn set(&self) -> (r: Vec<String>)
        ensures
            cmd_view(r) == spec_set_cmd(self.name@, self.props.spec_args()),
    {
        set_item(self.name.as_str(), self)
    }

    /// The command that applies this item's settings with an animation.
    pub fn animate_set(&self, curve: &str, duration: u32) -> (r: Vec<String>)
        ensures
            cmd_view(r) == seq!["--animate"@, curve@, spec_dec(duration as nat)] + spec_set_cmd(
                self.name@,
                self.props.spec_args(),
            ),
    {
        animate_set_item(curve, duration, self.name.as_str(), self)
    }

    /// The command that subscribes this item to the events.
    pub fn subscribe(&self, events: Vec<BarEvent>) -> (r: Vec<String>)
        ensures
            cmd_view(r) == seq!["--subscribe"@, self.name@] + spec_event_names(events@),
    {
        subscribe(self.name.as_str(), events)
    }
}

impl Slider {
    /// The command that applies this slider's settings.
    pub fn set(&self) -> (r: Vec<String>)
        ensures
            cmd_view(r) == spec_set_cmd(self.name@, self.spec_args()),
    {
        set_item(self.name.as_str(), self)
    }

    /// The command that applies this slider's settings with an animation.
    pub fn animate_set(&self, curve: &str, duration: u32) -> (r: Vec<String>)
        ensures
            cmd_view(r) == seq!["--animate"@, curve@, spec_dec(duration as nat)] + spec_set_cmd(
                self.name@,
                self.spec_args(),
            ),
    {
        animate_set_item(curve, duration, self.name.as_str(), self)
    }
}

/// Adding an item without popup children removes any item of that name,
/// then adds it at its position with its settings.
pub proof fn lemma_add_childless(item: BarItem)
    requires
        item.children@.len() == 0,
    ensures
        spec_item_cmds(item, item.props.geometry.position) == spec_special_cmds(
            "item"@,
            item.name@,
            Some(spec_pos_or_default(item.props.geometry.position).spec_text()),
            item.props.spec_args(),
        ),
{
    assert(spec_children_cmds(item.name, item.children@) =~= Seq::<Seq<Seq<char>>>::empty());
    let pos = spec_pos_or_default(item.props.geometry.position).spec_text();
    assert(seq!["--add"@, "item"@, item.name@, pos] =~= seq!["--add"@, "item"@, item.name@]
        + spec_opt_pos_word(Some(pos)));
    assert(spec_item_head(item, item.props.geometry.position) =~= spec_special_cmds(
        "item"@,
        item.name@,
        Some(spec_pos_or_default(item.props.geometry.position).spec_text()),
        item.props.spec_args(),
    ));
}

/// Every `--add` in the commands directly follows the `--remove` of the
/// component it adds, so that adding replaces a component of that name.
pub open spec fn spec_adds_replace(c: Seq<Seq<Seq<char>>>) -> bool {
    forall|i: int|
        0 <= i < c.len() && (#[trigger] c[i]).len() > 2 && c[i][0] == "--add"@ ==> i > 0 && c[i
            - 1] == seq!["--remove"@, c[i][2]]
}

/// The commands start with a `--remove`, if there are any.
pub open spec fn spec_starts_with_remove(c: Seq<Seq<Seq<char>>>) -> bool {
    c.len() > 0 ==> c[0].len() > 0 && c[0][0] == "--remove"@
}

proof fn lemma_adds_replace_concat(a: Seq<Seq<Seq<char>>>, b: Seq<Seq<Seq<char>>>)
    requires
        spec_adds_replace(a),
        spec_adds_replace(b),
        spec_starts_with_remove(b),
    ensures
        spec_adds_replace(a + b),
        spec_starts_with_remove(a) ==> spec_starts_with_remove(a + b),
{
    reveal_strlit("--add");
    reveal_strlit("--remove");
    let c = a + b;
    assert forall|i: int|
        0 <= i < c.len() && (#[trigger] c[i]).len() > 2 && c[i][0] == "--add"@ implies i > 0 && c[i
            - 1] == seq!["--remove"@, c[i][2]] by {
        if i < a.len() {
            assert(c[i] == a[i]);
            assert(c[i - 1] == a[i - 1]);
        } else if i == a.len() {
            assert(c[i] == b[0]);
            assert("--remove"@.len() != "--add"@.len());
        } else {
            assert(c[i] == b[i - a.len()]);
            assert(c[i - 1] == b[i - 1 - a.len()]);
        }
    }
    if spec_starts_with_remove(a) && c.len() > 0 {
        if a.len() > 0 {
            assert(c[0] == a[0]);
        } else {
            assert(c[0] == b[0]);
        }
    }
}

proof fn lemma_special_replaces(kind: Seq<char>, name: Seq<char>, pos: Option<Seq<char>>, args: Seq<PropView>)
    ensures
        spec_adds_replace(spec_special_cmds(kind, name, pos, args)),
        spec_starts_with_remove(spec_special_cmds(kind, name, pos, args)),
{
    reveal_strlit("--add");
    reveal_strlit("--remove");
    let c = spec_special_cmds(kind, name, pos, args);
    assert(c[1][2] == name);
    assert(c[0][0] == "--remove"@);
    assert("--remove"@.len() != "--add"@.len());
}

proof fn lemma_item_replaces(item: BarItem, at: Option<ComponentPosition>)
    ensures
        spec_adds_replace(spec_item_cmds(item, at)),
        spec_starts_with_remove(spec_item_cmds(item, at)),
    decreases item, 2int,
{
    reveal_strlit("--add");
    reveal_strlit("--remove");
    let h = spec_item_head(item, at);
    assert(h[1][2] == item.name@);
    assert(h[0][0] == "--remove"@);
    assert("--remove"@.len() != "--add"@.len());
    assert(spec_adds_replace(h));
    lemma_children_replace(item.name, item.children@);
    lemma_adds_replace_concat(h, spec_children_cmds(item.name, item.children@));
}

proof fn lemma_children_replace(parent: String, cs: Seq<PopupChild>)
    ensures
        spec_adds_replace(spec_children_cmds(parent, cs)),
        spec_starts_with_remove(spec_children_cmds(parent, cs)),
    decreases cs, 1int,
{
    if cs.len() > 0 {
        lemma_children_replace(parent, cs.subrange(0, cs.len() - 1));
        lemma_child_replaces(parent, cs[cs.len() - 1]);
        lemma_adds_replace_concat(
            spec_children_cmds(parent, cs.subrange(0, cs.len() - 1)),
            spec_child_cmds(parent, cs[cs.len() - 1]),
        );
    }
}

proof fn lemma_child_replaces(parent: String, c: PopupChild)
    ensures
        spec_adds_replace(spec_child_cmds(parent, c)),
        spec_starts_with_remove(spec_child_cmds(parent, c)),
    decreases c, 0int,
{
    match c {
        PopupChild::Item(b) => lemma_item_replaces(*b, Some(ComponentPosition::Popup(parent))),
        PopupChild::Slider(s) => lemma_special_replaces(
            "slider"@,
            s.name@,
            Some("popup."@ + parent@),
            s.spec_args(),
        ),
    }
}

/// Adding an item replaces every component it adds, children included:
/// each `--add` directly follows the `--remove` of the same name, and the
/// commands start with a `--remove`.
pub proof fn lemma_add_item_replaces(item: BarItem)
    ensures
        spec_adds_replace(spec_item_cmds(item, item.props.geometry.position)),
        spec_starts_with_remove(spec_item_cmds(item, item.props.geometry.position)),
{
    lemma_item_replaces(item, item.props.geometry.position);
}

/// Something that runs sketchybar command lines.
pub trait Executor {
    /// Runs sketchybar with `args`; an error describes a failure to run it.
    fn execute(&self, args: Vec<String>) -> Result<(), String>;
}

} // verus!
