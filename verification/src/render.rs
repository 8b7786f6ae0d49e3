//! Emission: the single static template, the substitution context as a
//! map from variable names to plain values, and rendering through an
//! outside template engine.

use vstd::prelude::*;
use crate::uart::{
    UartGenerator, Error, APP_NAME, APP_VERSION, spec_tx_function_name, spec_rx_function_name,
    spec_rx_byte_name, spec_tx_start_bit_wait_clocks, spec_tx_bit_wait_clocks,
    spec_tx_stop_bit_wait_clocks, spec_rx_start_bit_wait_clocks, spec_rx_bit_wait_clocks,
    tail_instruction_seq,
};

verus! {

/// A substitution value as the contracts see it: a string, a number, a
/// flag, or a list of lines.
pub enum TemplateValue {
    Text(Seq<char>),
    Number(u32),
    Flag(bool),
    Lines(Seq<Seq<char>>),
}

#[verifier::external_type_specification]
#[verifier::external_body]
pub struct ExJsonValue(serde_json::Value);

#[verifier::external_type_specification]
#[verifier::external_body]
#[verifier::reject_recursive_types(K)]
#[verifier::reject_recursive_types(V)]
pub struct ExJsonMap<K, V>(serde_json::Map<K, V>);

/// The entries a context object holds, keyed by variable name.
pub uninterp spec fn json_map_model(m: serde_json::Map<String, serde_json::Value>) -> Map<
    Seq<char>,
    TemplateValue,
>;

/// What the template engine produces from a template text and a context:
/// a function of the two alone.
pub uninterp spec fn rendered_of(
    template: Seq<char>,
    context: Map<Seq<char>, TemplateValue>,
) -> Seq<char>;

/// Whether the template engine succeeds on a template text and a
/// context: compiling and substituting depend on the two alone, so
/// success does as well.
pub uninterp spec fn render_ok(
    template: Seq<char>,
    context: Map<Seq<char>, TemplateValue>,
) -> bool;

/// The model of a context object with no entries.
pub open spec fn empty_context() -> Map<Seq<char>, TemplateValue> {
    Map::empty()
}

/// Relies on serde_json::Map::new: a fresh map holds no entries.
#[verifier::external_body]
fn json_map_new() -> (res: serde_json::Map<String, serde_json::Value>)
    ensures
        json_map_model(res) == empty_context(),
{
    serde_json::Map::new()
}

/// Relies on serde_json::Map::insert: the entry for the key becomes the
/// given string.
#[verifier::external_body]
fn json_set_text(m: &mut serde_json::Map<String, serde_json::Value>, key: &str, value: &str)
    ensures
        json_map_model(*final(m)) == json_map_model(*old(m)).insert(
            key@,
            TemplateValue::Text(value@),
        ),
{
    m.insert(key.to_string(), serde_json::Value::String(value.to_string()));
}

/// Relies on serde_json::Map::insert and char::to_string: the entry for
/// the key becomes the one-character string of the given character.
#[verifier::external_body]
fn json_set_char(m: &mut serde_json::Map<String, serde_json::Value>, key: &str, value: char)
    ensures
        json_map_model(*final(m)) == json_map_model(*old(m)).insert(
            key@,
            TemplateValue::Text(seq![value]),
        ),
{
    m.insert(key.to_string(), serde_json::Value::String(value.to_string()));
}

/// Relies on serde_json::Map::insert and serde_json::Number::from: the
/// entry for the key becomes the given number.
#[verifier::external_body]
fn json_set_number(m: &mut serde_json::Map<String, serde_json::Value>, key: &str, value: u32)
    ensures
        json_map_model(*final(m)) == json_map_model(*old(m)).insert(
            key@,
            TemplateValue::Number(value),
        ),
{
    m.insert(key.to_string(), serde_json::Value::Number(serde_json::Number::from(value)));
}

/// Relies on serde_json::Map::insert: the entry for the key becomes the
/// given boolean.
#[verifier::external_body]
fn json_set_flag(m: &mut serde_json::Map<String, serde_json::Value>, key: &str, value: bool)
    ensures
        json_map_model(*final(m)) == json_map_model(*old(m)).insert(
            key@,
            TemplateValue::Flag(value),
        ),
{
    m.insert(key.to_string(), serde_json::Value::Bool(value));
}

/// Relies on serde_json::Map::insert and serde_json::Value::Array: the
/// entry for the key becomes the given list of strings, in order.
#[verifier::external_body]
fn json_set_lines(
    m: &mut serde_json::Map<String, serde_json::Value>,
    key: &str,
    values: &Vec<&'static str>,
)
    ensures
        json_map_model(*final(m)) == json_map_model(*old(m)).insert(
            key@,
            TemplateValue::Lines(values.deep_view()),
        ),
{
    let items: Vec<serde_json::Value> = values.iter().map(
        |s| serde_json::Value::String((*s).to_string()),
    ).collect();
    m.insert(key.to_string(), serde_json::Value::Array(items));
}

/// Relies on tinytemplate::TinyTemplate::{new, add_template, render}:
/// compiling the template and substituting the context — including
/// whether either step fails — is deterministic in the template text and
/// the context entries, and failure yields an error message rather than
/// a rendering.
#[verifier::external_body]
fn render_template(
    text: &'static str,
    context: &serde_json::Map<String, serde_json::Value>,
) -> (r: Result<String, String>)
    ensures
        r is Ok <==> render_ok(text@, json_map_model(*context)),
        r is Ok ==> r->Ok_0@ == rendered_of(text@, json_map_model(*context)),
{
    let mut engine = tinytemplate::TinyTemplate::new();
    if let Err(e) = engine.add_template("uart", text) {
        return Err(format!("{}", e));
    }
    match engine.render("uart", context) {
        Ok(rendered) => Ok(rendered),
        Err(e) => Err(format!("{}", e)),
    }
}

/// The context a plan substitutes into the template: every variable the
/// template mentions, with its exact value.
pub open spec fn spec_plan_context_map(plan: UartGenerator) -> Map<Seq<char>, TemplateValue> {
    empty_context().insert(
        "app_name"@,
        TemplateValue::Text(APP_NAME@),
    ).insert("app_version"@, TemplateValue::Text(APP_VERSION@)).insert(
        "frequency"@,
        TemplateValue::Number(plan.frequency.spec_hz()),
    ).insert("baud"@, TemplateValue::Number(plan.baud)).insert(
        "tx_function_name"@,
        TemplateValue::Text(spec_tx_function_name(plan)),
    ).insert("tx_port"@, TemplateValue::Text(seq![plan.tx_port.spec_char()])).insert(
        "tx_pin"@,
        TemplateValue::Number(plan.tx_pin.spec_num() as u32),
    ).insert("tx_inverted"@, TemplateValue::Flag(plan.invert_tx)).insert(
        "tx_start_bit_wait_cycles"@,
        TemplateValue::Number((spec_tx_start_bit_wait_clocks(plan.clocks_per_bit as int) / 4) as u32),
    ).insert(
        "tx_start_bit_tail_wait_instructions"@,
        TemplateValue::Lines(
            tail_instruction_seq(spec_tx_start_bit_wait_clocks(plan.clocks_per_bit as int) % 4),
        ),
    ).insert(
        "tx_bit_wait_cycles"@,
        TemplateValue::Number((spec_tx_bit_wait_clocks(plan.clocks_per_bit as int) / 4) as u32),
    ).insert(
        "tx_bit_tail_wait_instructions"@,
        TemplateValue::Lines(
            tail_instruction_seq(spec_tx_bit_wait_clocks(plan.clocks_per_bit as int) % 4),
        ),
    ).insert(
        "tx_stop_bit_wait_cycles"@,
        TemplateValue::Number(
            (spec_tx_stop_bit_wait_clocks(plan.clocks_per_stop_bit as int) / 4) as u32,
        ),
    ).insert(
        "tx_stop_bit_tail_wait_instructions"@,
        TemplateValue::Lines(
            tail_instruction_seq(
                spec_tx_stop_bit_wait_clocks(plan.clocks_per_stop_bit as int) % 4,
            ),
        ),
    ).insert("rx_function_name"@, TemplateValue::Text(spec_rx_function_name(plan.uart_num))).insert(
        "rx_byte_name"@,
        TemplateValue::Text(spec_rx_byte_name(plan.uart_num)),
    ).insert("rx_port"@, TemplateValue::Text(seq![plan.rx_port.spec_char()])).insert(
        "rx_pin"@,
        TemplateValue::Number(plan.rx_pin.spec_num() as u32),
    ).insert("rx_inverted"@, TemplateValue::Flag(plan.invert_rx)).insert(
        "rx_start_bit_wait_cycles"@,
        TemplateValue::Number(
            (spec_rx_start_bit_wait_clocks(plan.clocks_per_half_bit as int) / 4) as u32,
        ),
    ).insert(
        "rx_start_bit_tail_wait_instructions"@,
        TemplateValue::Lines(
            tail_instruction_seq(
                spec_rx_start_bit_wait_clocks(plan.clocks_per_half_bit as int) % 4,
            ),
        ),
    ).insert(
        "rx_bit_wait_cycles"@,
        TemplateValue::Number((spec_rx_bit_wait_clocks(plan.clocks_per_bit as int) / 4) as u32),
    ).insert(
        "rx_bit_tail_wait_instructions"@,
        TemplateValue::Lines(
            tail_instruction_seq(spec_rx_bit_wait_clocks(plan.clocks_per_bit as int) % 4),
        ),
    )
}

impl UartGenerator {
    /// Renders the plan into the final source text. Success is exactly
    /// the engine succeeding on this plan's context, and the result is
    /// then exactly the template rendered under it; the only failure is
    /// a template failure.
    pub fn generate(&self) -> (r: Result<String, Error>)
        requires
            self.wf(),
        ensures
            r is Ok <==> render_ok(UART_TEMPLATE@, spec_plan_context_map(*self)),
            r is Ok ==> r->Ok_0@ == rendered_of(UART_TEMPLATE@, spec_plan_context_map(*self)),
            r is Err ==> r->Err_0 is TemplateFailure,
    {
        let ctx = self.emission_context();
        let mut m = json_map_new();
        json_set_text(&mut m, "app_name", ctx.app_name);
        json_set_text(&mut m, "app_version", ctx.app_version);
        json_set_number(&mut m, "frequency", ctx.frequency);
        json_set_number(&mut m, "baud", ctx.baud);
        json_set_text(&mut m, "tx_function_name", ctx.tx_function_name.as_str());
        json_set_char(&mut m, "tx_port", ctx.tx_port);
        json_set_number(&mut m, "tx_pin", ctx.tx_pin as u32);
        json_set_flag(&mut m, "tx_inverted", ctx.tx_inverted);
        json_set_number(&mut m, "tx_start_bit_wait_cycles", ctx.tx_start_bit_wait_cycles);
        json_set_lines(
            &mut m,
            "tx_start_bit_tail_wait_instructions",
            &ctx.tx_start_bit_tail_wait_instructions,
        );
        json_set_number(&mut m, "tx_bit_wait_cycles", ctx.tx_bit_wait_cycles);
        json_set_lines(&mut m, "tx_bit_tail_wait_instructions", &ctx.tx_bit_tail_wait_instructions);
        json_set_number(&mut m, "tx_stop_bit_wait_cycles", ctx.tx_stop_bit_wait_cycles);
        json_set_lines(
            &mut m,
            "tx_stop_bit_tail_wait_instructions",
            &ctx.tx_stop_bit_tail_wait_instructions,
        );
        json_set_text(&mut m, "rx_function_name", ctx.rx_function_name.as_str());
        json_set_text(&mut m, "rx_byte_name", ctx.rx_byte_name.as_str());
        json_set_char(&mut m, "rx_port", ctx.rx_port);
        json_set_number(&mut m, "rx_pin", ctx.rx_pin as u32);
        json_set_flag(&mut m, "rx_inverted", ctx.rx_inverted);
        json_set_number(&mut m, "rx_start_bit_wait_cycles", ctx.rx_start_bit_wait_cycles);
        json_set_lines(
            &mut m,
            "rx_start_bit_tail_wait_instructions",
            &ctx.rx_start_bit_tail_wait_instructions,
        );
        json_set_number(&mut m, "rx_bit_wait_cycles", ctx.rx_bit_wait_cycles);
        json_set_lines(&mut m, "rx_bit_tail_wait_instructions", &ctx.rx_bit_tail_wait_instructions);
        proof {
            assert(json_map_model(m) == spec_plan_context_map(*self));
        }
        match render_template(UART_TEMPLATE, &m) {
            Ok(rendered) => Ok(rendered),
            Err(message) => Err(Error::TemplateFailure(message)),
        }
    }
}

/// The one static template: C with embedded assembly, hand-counted so
/// that the substituted wait counts land every edge on its clock.
pub const UART_TEMPLATE: &'static str = r##"// {app_name} v{app_version} -- software UART
// Target F_CPU: {frequency};  Target baud: {baud}
// TX pin: P{tx_port}{tx_pin}; TX Inverted: {tx_inverted}
#include <stdint.h>
#include <pdk/device.h>

#ifndef F_CPU
    #error "This uart requires F_CPU to be set"
#endif

#if F_CPU != {frequency}
    #error "Defined F_CPU does not match the uart's frequency ({frequency})"
#endif

#define UART_RESULT_RX_IDLE 0
#define UART_RESULT_RX_RECEIVED 1
#define UART_RESULT_RX_ERROR 2

typedef uint8_t UartResult;

static uint8_t _gen_{tx_function_name}_bits_left;

static void {tx_function_name}(uint8_t byte) \{
    __asm
    ; start bit
    {{if tx_inverted}}set1{{else}}set0{{endif}} P{tx_port}_ADDR, #{tx_pin} ; 1T
    mov a, #{tx_start_bit_wait_cycles} ; 1T
    0001$: ; wait loop takes ({tx_start_bit_wait_cycles} * 4 - 1)T
    nop ; 1T
    dzsn a ; Normally 1T, 2T in last cycle
    goto 0001$ ; 2T
    mov a, #8 ; 1T
    mov __gen_{tx_function_name}_bits_left, a ; 1T
    {{for instruction in tx_start_bit_tail_wait_instructions}}{instruction}
    {{endfor}}

    ; send 1 bit; compare (0002$ -- 0004$) will take 8T
    0002$:
    sr _{tx_function_name}_PARM_1 ; 1T, carry flag will contain LSB
    t1sn f, c ; 1T when bit is 0, in other case - 2T
    goto .+4 ; 2T
    nop ; 1T
    {{if tx_inverted}}set0{{else}}set1{{endif}} P{tx_port}_ADDR, #{tx_pin} ; 1T
    goto .+3 ; 2T
    {{if tx_inverted}}set1{{else}}set0{{endif}} P{tx_port}_ADDR, #{tx_pin} ; 1T
    goto .+1 ; 2T goto instead of nop to equalize branches
    mov a, #{tx_bit_wait_cycles} ; 1T
    0004$: ; wait loop takes ({tx_bit_wait_cycles} * 4 - 1)T
    nop ; 1T
    dzsn a ; 1T normally, 2T on skip
    goto 0004$ ; 2T
    {{for instruction in tx_bit_tail_wait_instructions}}{instruction}
    {{endfor}}

    ; check for more bits; following chunk will take 3T in any case
    dzsn __gen_{tx_function_name}_bits_left ; 1T normally, 2T on skip
    goto 0002$ ; 2T
    nop ; 1T

    ; wait + 5T to adjust lag from the code above
    goto .+1 ; 2T
    goto .+1 ; 2T
    nop ; 1T

    ; send stop bit
    {{if tx_inverted}}set0{{else}}set1{{endif}} P{tx_port}_ADDR, #{tx_pin} ; 1T
    mov a, #{tx_stop_bit_wait_cycles} ; 1T
    0005$: ; wait loop takes ({tx_stop_bit_wait_cycles} * 4 - 1)T
    nop ; 1T
    dzsn a ; 1T normally, 2T on skip
    goto 0005$ ; 2T
    {{for instruction in tx_stop_bit_tail_wait_instructions}}{instruction}
    {{endfor}}
    __endasm;
}

uint8_t {rx_byte_name};
uint8_t _gen_{rx_function_name}_bit;

static UartResult {rx_function_name}(void) __naked \{
    __asm
    ; Early check (A&F are not affected)
    {{if rx_inverted}}t1sn{{else}}t0sn{{endif}} P{rx_port}_ADDR, #{rx_pin} ; 1T/2T on skip/start bit
    ret #UART_RESULT_RX_IDLE

    ; Function prelude
    pushaf ; 1T

    ; Wait to middle of the bit
    mov a, #{rx_start_bit_wait_cycles} ; 1T
    nop ; 1T
    dzsn a ; 1T normally, 2T on skip
    goto .-2 ; 2T
    {{for instruction in rx_start_bit_tail_wait_instructions}}{instruction}
    {{endfor}}

    ; Validate start bit mid-value
    {{if rx_inverted}}t1sn{{else}}t0sn{{endif}} P{rx_port}_ADDR, #{rx_pin} ; 1T/2T on skip/start bit
    goto _gen_label_{rx_function_name}_error ; 2T

    ; Set bit counter to initial value
    mov a, #8 ; 1T, loop will end on 9th bit (after dec 0)
    mov __gen_{rx_function_name}_bit, a ; 1T

    ; Bit loop
    _gen_label_{rx_function_name}_bit_loop:
    src _{rx_byte_name} ; 1T; insert bit from carry (from the previous iteration)
    ; Wait loop
    mov a, #{rx_bit_wait_cycles} ; 1T
    nop ; 1T
    dzsn a; 1T normally, 2T on skip
    goto .-2 ; 2T
    {{for instruction in rx_bit_tail_wait_instructions}}{instruction}
    {{endfor}}

    ; check rx bit value; code before actual check introduces 4T lag
    dec __gen_{rx_function_name}_bit ; 1T; decrease count of remaining bits
    {{if rx_inverted}}set0{{else}}set1{{endif}} f, c ; 1T
    {{if rx_inverted}}t0sn{{else}}t1sn{{endif}} P{rx_port}_ADDR, #{rx_pin} ; 1T/2T, read rx bit
    {{if rx_inverted}}set1{{else}}set0{{endif}} f, c ; 1T

    ; check bit counter; 0xFF value (7th bit is set) represents 9th iteration
    t1sn __gen_{rx_function_name}_bit, #7 ; 1T normally, 2T loop exit
    goto _gen_label_{rx_function_name}_bit_loop ; 2T
    nop ; 1T

    ; Validate stop bit value
    {{if rx_inverted}}t0sn{{else}}t1sn{{endif}} f, c ; 1T/2T
    goto _gen_label_{rx_function_name}_error ; 2T
    popaf ; 1T
    ret #UART_RESULT_RX_RECEIVED ; 2T
    _gen_label_{rx_function_name}_error:
    popaf
    ret #UART_RESULT_RX_ERROR ; 2T; start/stop bits were invalid
    __endasm;
}

"##;

} // verus!
