//! The control script: its template, the values that go into it, its
//! validation and the decision whether the script file has to be written.
//!
//! The template is rendered by `tera` and the result is checked by the
//! parser of `mlua`'s Lua. The margin gain enters as text: it is a real
//! number, and its decimal notation is made where real numbers live, outside
//! this library.

use vstd::prelude::*;
use vstd::string::*;
use crate::actuators::{CameraActuators, CameraActuatorsView};
use crate::api::lua_table;
use crate::error::CoreError;
use crate::text::{decimal, push_decimal, same_text};

verus! {

/// The first key of the script parameter tables: camera slot `n` uses the
/// key 73 + `n`.
pub const PARAM_TABLE_KEY_BASE: u8 = 73;

/// The prefix of the script parameter names, in front of the slot number.
pub const PARAM_PREFIX: &'static str = "RCAM";

/// The variables of a template: each name with the text of its value.
pub type Vars = Map<Seq<char>, Seq<char>>;

/// The name of the first of the six values that the template takes: the key
/// of the parameter table. The others follow in the order of their places.
pub const VAR_TABLE_KEY: &'static str = "param_table_key";

pub const VAR_PREFIX: &'static str = "param_prefix";

pub const VAR_MARGIN_GAIN: &'static str = "margin_gain";

pub const VAR_K_SCRIPT: &'static str = "k_script";

pub const VAR_CLOSEST_POINTS: &'static str = "closest_points";

pub const VAR_FURTHEST_POINTS: &'static str = "furthest_points";

/// The template of the control script, up to the key of the parameter table.
pub const TEMPLATE_HEAD: &'static str = "-- Focus correction for a zoom lens.
--
-- Ten times a second the script reads the focus input and the zoom output,
-- looks up the focus that is sharp at the current zoom between two
-- calibration tables, and drives the script output with the result.

-- Key of this script's parameter table (0 to 200, unique per script).
local PARAM_TABLE_KEY = ";

/// The template between the key of the parameter table and the prefix.
pub const TEMPLATE_AFTER_TABLE_KEY: &'static str = "

-- Prefix of all parameter names in the table.
local PARAM_PREFIX = ";

/// The template between the prefix and the margin gain.
pub const TEMPLATE_AFTER_PREFIX: &'static str = "

assert(param:add_table(PARAM_TABLE_KEY, PARAM_PREFIX, 5), 'could not add the parameter table')

assert(param:add_param(PARAM_TABLE_KEY, 1, 'MARGIN_GAIN', ";

/// The template between the margin gain and the script function.
pub const TEMPLATE_AFTER_MARGIN_GAIN: &'static str = "), 'could not add MARGIN_GAIN')
assert(param:add_param(PARAM_TABLE_KEY, 2, 'K_FOCUS', 92), 'could not add K_FOCUS')
assert(param:add_param(PARAM_TABLE_KEY, 3, 'K_ZOOM', 180), 'could not add K_ZOOM')
assert(param:add_param(PARAM_TABLE_KEY, 4, 'K_SCRIPT', ";

/// The template between the script function and the first table.
pub const TEMPLATE_AFTER_K_SCRIPT: &'static str = "), 'could not add K_SCRIPT')
assert(param:add_param(PARAM_TABLE_KEY, 5, 'ENABLE', 1), 'could not add ENABLE')

local MARGIN_GAIN = Parameter()
local K_FOCUS = Parameter()
local K_ZOOM = Parameter()
local K_SCRIPT = Parameter()
local ENABLE = Parameter()

assert(MARGIN_GAIN:init(PARAM_PREFIX .. 'MARGIN_GAIN'), 'could not bind MARGIN_GAIN')
assert(K_FOCUS:init(PARAM_PREFIX .. 'K_FOCUS'), 'could not bind K_FOCUS')
assert(K_ZOOM:init(PARAM_PREFIX .. 'K_ZOOM'), 'could not bind K_ZOOM')
assert(K_SCRIPT:init(PARAM_PREFIX .. 'K_SCRIPT'), 'could not bind K_SCRIPT')
assert(ENABLE:init(PARAM_PREFIX .. 'ENABLE'), 'could not bind ENABLE')

-- Focus that is sharp at the closest distance, by zoom.
local closest_points = ";

/// The template between the two tables.
pub const TEMPLATE_AFTER_CLOSEST_POINTS: &'static str = "

-- Focus that is sharp at the furthest distance, by zoom.
local furthest_points = ";

/// The template after the second table, to its end.
pub const TEMPLATE_TAIL: &'static str = "

local UPDATE_PERIOD_MS = 100

-- Straight line through (x1, y1) and (x2, y2), at x.
local function line_at(x, x1, y1, x2, y2)
    return y1 + (x - x1) * (y2 - y1) / (x2 - x1)
end

-- Focus for a zoom position, from one table.
local function focus_from_table(zoom, points)
    local count = #points
    if zoom <= points[1].zoom then
        return points[1].focus
    end
    if zoom >= points[count].zoom then
        return points[count].focus
    end
    for i = 1, count - 1 do
        local low = points[i]
        local high = points[i + 1]
        if zoom >= low.zoom and zoom < high.zoom then
            return line_at(zoom, low.zoom, low.focus, high.zoom, high.focus)
        end
    end
    return points[count].focus
end

-- Corrected focus: the focus input picks a place between the two tables,
-- widened by the margin gain.
local function corrected_focus(focus, zoom, margin_gain)
    local closest = focus_from_table(zoom, closest_points)
    local furthest = focus_from_table(zoom, furthest_points)
    local span = (furthest - closest) * margin_gain
    local middle = closest + span / 2
    local share = (focus - 1500) / 400
    return math.floor(middle + share * span)
end

local ticks = 0

function update()
    local margin_gain = MARGIN_GAIN:get()
    local k_focus = K_FOCUS:get()
    local k_zoom = K_ZOOM:get()
    local k_script = K_SCRIPT:get()
    local enabled = ENABLE:get()

    local focus_input = SRV_Channels:get_output_pwm(k_focus)
    local zoom_input = SRV_Channels:get_output_pwm(k_zoom)

    local focus_output = focus_input
    if enabled ~= 0 then
        focus_output = corrected_focus(focus_input, zoom_input, margin_gain)
    end

    ticks = ticks + 1
    if ticks % 10 == 0 then
        gcs:send_text(6, string.format('focus %d zoom %d corrected %d', focus_input, zoom_input, focus_output))
    end

    SRV_Channels:set_output_pwm(k_script, focus_output)

    return update, UPDATE_PERIOD_MS
end

return update, UPDATE_PERIOD_MS
";

/// The place of a value in the template.
pub open spec fn place(name: Seq<char>) -> Seq<char> {
    "{{ "@ + name + " }}"@
}

/// The template of the control script: its fixed text with a place for each
/// of the six values. Nothing else in it is dynamic.
pub open spec fn template_chars() -> Seq<char> {
    TEMPLATE_HEAD@ + place(VAR_TABLE_KEY@) + TEMPLATE_AFTER_TABLE_KEY@ + place(VAR_PREFIX@)
        + TEMPLATE_AFTER_PREFIX@ + place(VAR_MARGIN_GAIN@) + TEMPLATE_AFTER_MARGIN_GAIN@ + place(
        VAR_K_SCRIPT@,
    ) + TEMPLATE_AFTER_K_SCRIPT@ + place(VAR_CLOSEST_POINTS@) + TEMPLATE_AFTER_CLOSEST_POINTS@
        + place(VAR_FURTHEST_POINTS@) + TEMPLATE_TAIL@
}

/// The template with each place taken by the text of its value.
pub open spec fn filled(vars: Vars) -> Seq<char> {
    TEMPLATE_HEAD@ + vars[VAR_TABLE_KEY@] + TEMPLATE_AFTER_TABLE_KEY@ + vars[VAR_PREFIX@]
        + TEMPLATE_AFTER_PREFIX@ + vars[VAR_MARGIN_GAIN@] + TEMPLATE_AFTER_MARGIN_GAIN@
        + vars[VAR_K_SCRIPT@] + TEMPLATE_AFTER_K_SCRIPT@ + vars[VAR_CLOSEST_POINTS@]
        + TEMPLATE_AFTER_CLOSEST_POINTS@ + vars[VAR_FURTHEST_POINTS@] + TEMPLATE_TAIL@
}

fn push_place(out: &mut String, name: &str)
    ensures
        final(out)@ == old(out)@ + place(name@),
{
    out.append("{{ ");
    out.append(name);
    out.append(" }}");
    assert(out@ =~= old(out)@ + place(name@));
}

/// The template of the control script.
pub fn script_template() -> (s: String)
    ensures
        s@ == template_chars(),
{
    let mut s = String::from_str(TEMPLATE_HEAD);
    push_place(&mut s, VAR_TABLE_KEY);
    s.append(TEMPLATE_AFTER_TABLE_KEY);
    push_place(&mut s, VAR_PREFIX);
    s.append(TEMPLATE_AFTER_PREFIX);
    push_place(&mut s, VAR_MARGIN_GAIN);
    s.append(TEMPLATE_AFTER_MARGIN_GAIN);
    push_place(&mut s, VAR_K_SCRIPT);
    s.append(TEMPLATE_AFTER_K_SCRIPT);
    push_place(&mut s, VAR_CLOSEST_POINTS);
    s.append(TEMPLATE_AFTER_CLOSEST_POINTS);
    push_place(&mut s, VAR_FURTHEST_POINTS);
    s.append(TEMPLATE_TAIL);
    s
}

/// The variables that a template context holds: each name with the text of
/// its value.
pub uninterp spec fn context_vars(context: tera::Context) -> Map<Seq<char>, Seq<char>>;

/// What `tera` makes of a template and its variables: the rendered text, or
/// nothing where rendering fails.
pub uninterp spec fn rendered(template: Seq<char>, vars: Map<Seq<char>, Seq<char>>) -> Option<
    Seq<char>,
>;

/// Whether the Lua parser accepts a text as a chunk.
pub uninterp spec fn lua_accepts(script: Seq<char>) -> bool;

/// `tera::Context::new`: a context without variables.
#[verifier::external_body]
fn context_new() -> (c: tera::Context)
    ensures
        context_vars(c) == Vars::empty(),
{
    tera::Context::new()
}

/// `tera::Context::insert` with a text value: the variable is set, in place
/// of an earlier value of that name.
#[verifier::external_body]
fn context_insert(context: &mut tera::Context, key: &str, value: &str)
    ensures
        context_vars(*final(context)) == context_vars(*old(context)).insert(key@, value@),
{
    context.insert(key, value)
}

/// `tera::Tera::one_off` without escaping, on the script template. Whether
/// rendering succeeds, and with which text, is a function of the template
/// and the variables. Where it succeeds, the text is the template with each
/// place taken by the text of its variable: the engine copies the text
/// between the places and writes a text value as it is. (This holds of the
/// script template, which has six places for variables and nothing else
/// that the engine reads; a template that calls `get_env` would read the
/// variables of the process.)
#[verifier::external_body]
fn one_off(template: &str, context: &tera::Context) -> (r: Result<String, tera::Error>)
    requires
        template@ == template_chars(),
    ensures
        match rendered(template@, context_vars(*context)) {
            Some(text) => r matches Ok(s) && s@ == text,
            None => r is Err,
        },
        r matches Ok(s) ==> s@ == filled(context_vars(*context)),
{
    tera::Tera::one_off(template, context, false)
}

/// `to_string` of a `tera::Error`: the message of the error. Nothing is
/// claimed of the text.
#[verifier::external_body]
fn render_error_text(e: &tera::Error) -> (s: String) {
    e.to_string()
}

/// `mlua::Lua::new`, `Lua::load`, `Chunk::set_mode` and
/// `Chunk::into_function`: a fresh Lua state compiles the text as a text
/// chunk, without running it. Succeeds exactly where the parser accepts the
/// text.
#[verifier::external_body]
fn lua_compile(script: &str) -> (r: Result<(), mlua::Error>)
    ensures
        r is Ok <==> lua_accepts(script@),
{
    match mlua::Lua::new().load(script).set_mode(mlua::chunk::ChunkMode::Text).into_function() {
        Ok(_) => Ok(()),
        Err(e) => Err(e),
    }
}

/// `to_string` of an `mlua::Error`: the message of the error. Nothing is
/// claimed of the text.
#[verifier::external_body]
fn lua_error_text(e: &mlua::Error) -> (s: String) {
    e.to_string()
}

/// The text of the prefix variable: the quoted prefix of the camera slot's
/// parameter names, as in `"RCAM1_"`.
pub open spec fn prefix_text(camera: nat) -> Seq<char> {
    "\""@ + PARAM_PREFIX@ + decimal(camera) + "_\""@
}

/// The variables of the control script of a camera.
pub open spec fn script_vars(config: CameraActuatorsView, margin_gain: Seq<char>) -> Map<
    Seq<char>,
    Seq<char>,
> {
    let camera = config.parameters.camera_id.spec_code() as nat;
    Map::<Seq<char>, Seq<char>>::empty().insert(
        VAR_TABLE_KEY@,
        decimal(PARAM_TABLE_KEY_BASE as nat + camera),
    ).insert(VAR_PREFIX@, prefix_text(camera)).insert(VAR_MARGIN_GAIN@, margin_gain).insert(
        VAR_K_SCRIPT@,
        decimal(config.parameters.script_function.spec_code() as nat),
    ).insert(VAR_CLOSEST_POINTS@, lua_table(config.closest_points)).insert(
        VAR_FURTHEST_POINTS@,
        lua_table(config.furthest_points),
    )
}

/// What rendering the control script of a camera gives: the script, or
/// nothing where rendering fails.
pub open spec fn script_text(config: CameraActuatorsView, margin_gain: Seq<char>) -> Option<
    Seq<char>,
> {
    rendered(template_chars(), script_vars(config, margin_gain))
}

/// The control script of a camera: the template with the key of the
/// camera's parameter table, the quoted prefix of its parameter names, the
/// margin gain, the code of the script function and the two calibration
/// tables in their places.
pub open spec fn script_chars(config: CameraActuatorsView, margin_gain: Seq<char>) -> Seq<char> {
    let camera = config.parameters.camera_id.spec_code() as nat;
    TEMPLATE_HEAD@ + decimal(PARAM_TABLE_KEY_BASE as nat + camera) + TEMPLATE_AFTER_TABLE_KEY@
        + prefix_text(camera) + TEMPLATE_AFTER_PREFIX@ + margin_gain
        + TEMPLATE_AFTER_MARGIN_GAIN@ + decimal(
        config.parameters.script_function.spec_code() as nat,
    ) + TEMPLATE_AFTER_K_SCRIPT@ + lua_table(config.closest_points)
        + TEMPLATE_AFTER_CLOSEST_POINTS@ + lua_table(config.furthest_points) + TEMPLATE_TAIL@
}

/// The template filled with the variables of a camera's script is the
/// camera's script.
pub proof fn lemma_filled_script(config: CameraActuatorsView, margin_gain: Seq<char>)
    ensures
        filled(script_vars(config, margin_gain)) == script_chars(config, margin_gain),
{
    reveal_strlit("param_table_key");
    reveal_strlit("param_prefix");
    reveal_strlit("margin_gain");
    reveal_strlit("k_script");
    reveal_strlit("closest_points");
    reveal_strlit("furthest_points");
    assert(VAR_TABLE_KEY@.len() == 15 && VAR_PREFIX@.len() == 12 && VAR_MARGIN_GAIN@.len() == 11
        && VAR_K_SCRIPT@.len() == 8 && VAR_CLOSEST_POINTS@.len() == 14
        && VAR_FURTHEST_POINTS@.len() == 15);
    assert(VAR_TABLE_KEY@[0] == 'p' && VAR_FURTHEST_POINTS@[0] == 'f');
    assert(VAR_TABLE_KEY@ != VAR_FURTHEST_POINTS@);
    let vars = script_vars(config, margin_gain);
    let camera = config.parameters.camera_id.spec_code() as nat;
    assert(vars[VAR_TABLE_KEY@] == decimal(PARAM_TABLE_KEY_BASE as nat + camera));
    assert(vars[VAR_PREFIX@] == prefix_text(camera));
    assert(vars[VAR_MARGIN_GAIN@] == margin_gain);
    assert(vars[VAR_K_SCRIPT@] == decimal(config.parameters.script_function.spec_code() as nat));
    assert(vars[VAR_CLOSEST_POINTS@] == lua_table(config.closest_points));
    assert(vars[VAR_FURTHEST_POINTS@] == lua_table(config.furthest_points));
}

/// Renders the control script of a camera. `margin_gain` is the decimal
/// notation of the record's margin gain. The rendered text is the template
/// with the camera's values in their places; whether rendering succeeds is
/// the template engine's to say.
pub fn generate_lua_script(config: &CameraActuators, margin_gain: &str) -> (r: Result<
    String,
    CoreError,
>)
    ensures
        match script_text(config@, margin_gain@) {
            Some(text) => r matches Ok(s) && s@ == text,
            None => r matches Err(e) && e is ScriptInvalid,
        },
        r matches Ok(s) ==> s@ == script_chars(config@, margin_gain@),
{
    let camera = config.parameters.camera_id.code();
    let mut key = String::new();
    push_decimal(&mut key, (PARAM_TABLE_KEY_BASE + camera) as u64);
    let mut prefix = String::from_str("\"");
    prefix.append(PARAM_PREFIX);
    push_decimal(&mut prefix, camera as u64);
    prefix.append("_\"");
    let mut k_script = String::new();
    push_decimal(&mut k_script, config.parameters.script_function.code() as u64);
    let closest = config.closest_points.to_lua();
    let furthest = config.furthest_points.to_lua();

    let mut context = context_new();
    context_insert(&mut context, VAR_TABLE_KEY, key.as_str());
    context_insert(&mut context, VAR_PREFIX, prefix.as_str());
    context_insert(&mut context, VAR_MARGIN_GAIN, margin_gain);
    context_insert(&mut context, VAR_K_SCRIPT, k_script.as_str());
    context_insert(&mut context, VAR_CLOSEST_POINTS, closest.as_str());
    context_insert(&mut context, VAR_FURTHEST_POINTS, furthest.as_str());
    assert(key@ =~= decimal(PARAM_TABLE_KEY_BASE as nat + camera as nat));
    assert(k_script@ =~= decimal(config.parameters.script_function.spec_code() as nat));
    assert(prefix@ =~= prefix_text(camera as nat));
    assert(context_vars(context) == script_vars(config@, margin_gain@));
    proof {
        lemma_filled_script(config@, margin_gain@);
    }
    let template = script_template();
    match one_off(template.as_str(), &context) {
        Ok(text) => Ok(text),
        Err(e) => Err(CoreError::ScriptInvalid(render_error_text(&e))),
    }
}

/// Checks that a script is valid Lua, without running it.
pub fn validate_lua(script: &str) -> (r: Result<(), CoreError>)
    ensures
        r is Ok <==> lua_accepts(script@),
        r matches Err(e) ==> e is ScriptInvalid,
{
    match lua_compile(script) {
        Ok(()) => Ok(()),
        Err(e) => Err(CoreError::ScriptInvalid(lua_error_text(&e))),
    }
}

/// Whether the script file has to be written: always where `overwrite` is
/// set, and otherwise where there is no file or its content differs from the
/// script.
pub open spec fn write_needed(script: Seq<char>, existing: Option<Seq<char>>, overwrite: bool)
    -> bool {
    overwrite || existing != Some(script)
}

/// Whether the script file has to be written.
pub fn script_changed(script: &str, existing: Option<&str>, overwrite: bool) -> (r: bool)
    ensures
        r == write_needed(
            script@,
            match existing {
                Some(e) => Some(e@),
                None => None,
            },
            overwrite,
        ),
{
    if overwrite {
        return true;
    }
    match existing {
        Some(e) => !same_text(script, e),
        None => true,
    }
}

/// What the export of a camera's script comes to, given the content of the
/// script file before it: the text to write, nothing where the file is
/// already right, or the failure to render or to validate the script.
pub open spec fn export_outcome(
    config: CameraActuatorsView,
    margin_gain: Seq<char>,
    existing: Option<Seq<char>>,
    overwrite: bool,
) -> Result<Option<Seq<char>>, ()> {
    match script_text(config, margin_gain) {
        None => Err(()),
        Some(text) => if !lua_accepts(text) {
            Err(())
        } else if write_needed(text, existing, overwrite) {
            Ok(Some(text))
        } else {
            Ok(None)
        },
    }
}

/// Renders and validates the control script of a camera and says what has
/// to be written: the script, or nothing where the file already holds it and
/// `overwrite` is not set. An invalid script is an error, and then nothing
/// is to be written.
pub fn export_script(
    config: &CameraActuators,
    margin_gain: &str,
    existing: Option<&str>,
    overwrite: bool,
) -> (r: Result<Option<String>, CoreError>)
    ensures
        match export_outcome(
            config@,
            margin_gain@,
            match existing {
                Some(e) => Some(e@),
                None => None,
            },
            overwrite,
        ) {
            Err(_) => r matches Err(e) && e is ScriptInvalid,
            Ok(None) => r matches Ok(None),
            Ok(Some(text)) => r matches Ok(Some(s)) && s@ == text,
        },
{
    let contents = match generate_lua_script(config, margin_gain) {
        Ok(contents) => contents,
        Err(e) => {
            return Err(e);
        },
    };
    match validate_lua(contents.as_str()) {
        Ok(()) => {},
        Err(e) => {
            return Err(e);
        },
    }
    if script_changed(contents.as_str(), existing, overwrite) {
        Ok(Some(contents))
    } else {
        Ok(None)
    }
}

/// Lua determinism: two records that agree on the camera slot, the script
/// function and the two calibration tables have the same script variables
/// and so, for the same margin gain text, the same script.
pub proof fn lemma_render_deterministic(
    a: CameraActuatorsView,
    b: CameraActuatorsView,
    margin_gain: Seq<char>,
)
    requires
        a.parameters.camera_id == b.parameters.camera_id,
        a.parameters.script_function == b.parameters.script_function,
        a.closest_points == b.closest_points,
        a.furthest_points == b.furthest_points,
    ensures
        script_vars(a, margin_gain) == script_vars(b, margin_gain),
        script_text(a, margin_gain) == script_text(b, margin_gain),
{
}

/// Script write idempotence: once the file holds what an export gave, a
/// second export of the unchanged record without `overwrite` has nothing to
/// write.
pub proof fn lemma_export_idempotent(
    config: CameraActuatorsView,
    margin_gain: Seq<char>,
    existing: Option<Seq<char>>,
    overwrite: bool,
)
    requires
        export_outcome(config, margin_gain, existing, overwrite) is Ok,
    ensures
        ({
            let file = match export_outcome(config, margin_gain, existing, overwrite) {
                Ok(Some(text)) => Some(text),
                _ => existing,
            };
            export_outcome(config, margin_gain, file, false) == Ok::<Option<Seq<char>>, ()>(None)
        }),
{
}

} // verus!
