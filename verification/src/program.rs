//! A program: its statements, one after another, and what they declare.
use crate::cast::spec_to_value;
use crate::comment::strip_comments;
use crate::config::{
    Config, EventProcessor, Peripheral, SpecConfig, SpecEventProcessor, SpecPeripheral,
};
use crate::error::{
    caused, error_trees, outcome, shorter, ErrorKind, Expectation, Failure, Outcome, ParserError,
    SpecError,
};
use crate::literal::{Literal, SpecLiteral};
use crate::parser::{spec_multispace0, spec_multispace1};
use crate::progress::{law_statement_advances, lemma_scan_advances};
use crate::statement::const_statement::{const_statement, spec_const_statement};
use crate::statement::do_statement::{do_statement, spec_do_statement};
use crate::statement::let_statement::{let_statement, spec_let_statement};
use crate::statement::peripheral_statement::{peripheral_statement, spec_peripheral_statement};
use crate::statement::send_statement::{send_statement, spec_send_statement};
use crate::statement::set_statement::{set_statement, spec_set_statement};
use crate::table::{Constants, SpecConstants, SpecVariables, StateVariables};
use crate::text::CharClass;
use vstd::prelude::*;

verus! {

/// One statement of a program.
#[derive(Debug, PartialEq, Eq)]
pub enum Statement<'a> {
    /// A peripheral with its index.
    Peripheral(u32, Peripheral),
    /// A state variable with its initial value.
    Let(&'a str, Literal),
    /// A constant with its value.
    Const(&'a str, Literal),
    /// A rule.
    Rule(EventProcessor),
}

/// The model of a [`Statement`].
pub ghost enum SpecStatement {
    Peripheral(u32, SpecPeripheral),
    Let(Seq<char>, SpecLiteral),
    Const(Seq<char>, SpecLiteral),
    Rule(SpecEventProcessor),
}

impl<'a> DeepView for Statement<'a> {
    type V = SpecStatement;

    open spec fn deep_view(&self) -> SpecStatement {
        match self {
            Statement::Peripheral(index, p) => SpecStatement::Peripheral(*index, p.deep_view()),
            Statement::Let(name, value) => SpecStatement::Let(name@, value.deep_view()),
            Statement::Const(name, value) => SpecStatement::Const(name@, value.deep_view()),
            Statement::Rule(rule) => SpecStatement::Rule(rule.deep_view()),
        }
    }
}

/// The same outcome with the rule that was taken as a statement.
pub open spec fn as_rule(o: Outcome<SpecEventProcessor>) -> Outcome<SpecStatement> {
    match o {
        Outcome::Parsed { rest, value } => Outcome::Parsed {
            rest,
            value: SpecStatement::Rule(value),
        },
        Outcome::Recoverable(e) => Outcome::Recoverable(e),
        Outcome::Fatal(e) => Outcome::Fatal(e),
    }
}

/// The six kinds of statement at `s`, in the order in which they are tried:
/// a peripheral, `let`, `const`, `send`, `do`, `set`.
pub open spec fn statement_kinds(
    constants: SpecConstants,
    variables: SpecVariables,
    tick: u16,
    s: Seq<char>,
) -> Seq<Outcome<SpecStatement>> {
    seq![
        match spec_peripheral_statement(constants, s) {
            Outcome::Parsed { rest, value } => Outcome::Parsed {
                rest,
                value: SpecStatement::Peripheral(value.0, value.1),
            },
            Outcome::Recoverable(e) => Outcome::Recoverable(e),
            Outcome::Fatal(e) => Outcome::Fatal(e),
        },
        match spec_let_statement(s) {
            Outcome::Parsed { rest, value } => Outcome::Parsed {
                rest,
                value: SpecStatement::Let(value.0, value.1),
            },
            Outcome::Recoverable(e) => Outcome::Recoverable(e),
            Outcome::Fatal(e) => Outcome::Fatal(e),
        },
        match spec_const_statement(s) {
            Outcome::Parsed { rest, value } => Outcome::Parsed {
                rest,
                value: SpecStatement::Const(value.0, value.1),
            },
            Outcome::Recoverable(e) => Outcome::Recoverable(e),
            Outcome::Fatal(e) => Outcome::Fatal(e),
        },
        as_rule(spec_send_statement(constants, tick, s)),
        as_rule(spec_do_statement(constants, tick, s)),
        as_rule(spec_set_statement(constants, variables, tick, s)),
    ]
}

/// The first of the outcomes from `from` on that is no recoverable failure.
/// Where all fail recoverably, their failures join `failures`, those of the
/// outcomes before `from`, as siblings.
pub open spec fn first_statement(
    kinds: Seq<Outcome<SpecStatement>>,
    from: int,
    failures: Seq<SpecError>,
) -> Outcome<SpecStatement>
    decreases kinds.len() - from,
{
    if from < 0 || from >= kinds.len() {
        Outcome::Recoverable(SpecError::Alt(failures))
    } else {
        match kinds[from] {
            Outcome::Recoverable(e) => first_statement(kinds, from + 1, failures.push(e)),
            other => other,
        }
    }
}

/// A statement: the first kind that does not fail recoverably decides.
/// Where every kind fails recoverably, the six failures are siblings.
pub open spec fn spec_statement(
    constants: SpecConstants,
    variables: SpecVariables,
    tick: u16,
    s: Seq<char>,
) -> Outcome<SpecStatement> {
    first_statement(statement_kinds(constants, variables, tick, s), 0, Seq::empty())
}

/// Takes one statement from the front of `text`. The kinds are tried in
/// this order: a peripheral, `let`, `const`, `send`, `do`, `set`. A fatal
/// failure of one kind is the failure of the statement; where every kind
/// fails recoverably, the statement does, with the six failures as
/// siblings.
pub fn statement<'a>(
    constants: &Constants,
    variables: &StateVariables,
    tick_code: u16,
    text: &'a str,
) -> (r: Result<(&'a str, Statement<'a>), Failure>)
    ensures
        outcome(r) == spec_statement(constants@, variables@, tick_code, text@),
        shorter(text, r),
{
    reveal_with_fuel(first_statement, 7);
    let ghost kinds = statement_kinds(constants@, variables@, tick_code, text@);
    let e1 = match peripheral_statement(constants, text) {
        Ok((rest, (index, peripheral))) => return Ok(
            (rest, Statement::Peripheral(index, peripheral)),
        ),
        Err(Failure::Fatal(e)) => return Err(Failure::Fatal(e)),
        Err(Failure::Recoverable(e)) => e,
    };
    let e2 = match let_statement(text) {
        Ok((rest, (name, value))) => return Ok((rest, Statement::Let(name, value))),
        Err(Failure::Fatal(e)) => return Err(Failure::Fatal(e)),
        Err(Failure::Recoverable(e)) => e,
    };
    let e3 = match const_statement(text) {
        Ok((rest, (name, value))) => return Ok((rest, Statement::Const(name, value))),
        Err(Failure::Fatal(e)) => return Err(Failure::Fatal(e)),
        Err(Failure::Recoverable(e)) => e,
    };
    let e4 = match send_statement(constants, tick_code, text) {
        Ok((rest, rule)) => return Ok((rest, Statement::Rule(rule))),
        Err(Failure::Fatal(e)) => return Err(Failure::Fatal(e)),
        Err(Failure::Recoverable(e)) => e,
    };
    let e5 = match do_statement(constants, tick_code, text) {
        Ok((rest, rule)) => return Ok((rest, Statement::Rule(rule))),
        Err(Failure::Fatal(e)) => return Err(Failure::Fatal(e)),
        Err(Failure::Recoverable(e)) => e,
    };
    let e6 = match set_statement(constants, variables, tick_code, text) {
        Ok((rest, rule)) => return Ok((rest, Statement::Rule(rule))),
        Err(Failure::Fatal(e)) => return Err(Failure::Fatal(e)),
        Err(Failure::Recoverable(e)) => e,
    };
    let siblings = vec![e1, e2, e3, e4, e5, e6];
    proof {
        let all = first_statement(kinds, 0, Seq::empty());
        assert(all is Recoverable);
        assert(all->Recoverable_0 matches SpecError::Alt(found) && found =~= error_trees(
            siblings@,
        ));
    }
    Err(Failure::Recoverable(ParserError::Alt(siblings)))
}

/// The codes of the protocol's events. They seed the table of constants,
/// each under its name in the protocol.
#[derive(Debug, Clone, Copy, PartialEq, Eq)]
pub struct EventCodes {
    pub bootloader_hello: u16,
    pub programmer_hello: u16,
    pub programmer_start_firmware_upgrade: u16,
    pub ack: u16,
    pub data: u16,
    pub configurator_hello: u16,
    pub bcm_change_brightness: u16,
    pub button_pressed: u16,
    pub button_released: u16,
    /// The code of the tick that the system sends to itself: `match tick`
    /// tests for it.
    pub internal_system_tick: u16,
    pub programmer_start_config_upgrade: u16,
    pub programmer_set_device_address: u16,
    pub message: u16,
}

/// The constants that a program starts with: the code of each event of the
/// protocol, as a `u16`.
pub open spec fn seeded(codes: EventCodes) -> Map<Seq<char>, SpecLiteral> {
    Map::<Seq<char>, SpecLiteral>::empty().insert(
        "BOOTLOADER_HELLO_EVENT_CODE"@,
        SpecLiteral::U16(codes.bootloader_hello),
    ).insert("PROGRAMMER_HELLO_EVENT_CODE"@, SpecLiteral::U16(codes.programmer_hello)).insert(
        "PROGRAMMER_START_FIRMWARE_UPGRADE_EVENT_CODE"@,
        SpecLiteral::U16(codes.programmer_start_firmware_upgrade),
    ).insert("ACK_EVENT_CODE"@, SpecLiteral::U16(codes.ack)).insert(
        "DATA_EVENT_CODE"@,
        SpecLiteral::U16(codes.data),
    ).insert("CONFIGURATOR_HELLO_EVENT_CODE"@, SpecLiteral::U16(codes.configurator_hello)).insert(
        "BCM_CHANGE_BRIGHTNESS_EVENT_CODE"@,
        SpecLiteral::U16(codes.bcm_change_brightness),
    ).insert("BUTTON_PRESSED_EVENT_CODE"@, SpecLiteral::U16(codes.button_pressed)).insert(
        "BUTTON_RELEASED_EVENT_CODE"@,
        SpecLiteral::U16(codes.button_released),
    ).insert(
        "INTERNAL_SYSTEM_TICK_EVENT_CODE"@,
        SpecLiteral::U16(codes.internal_system_tick),
    ).insert(
        "PROGRAMMER_START_CONFIG_UPGRADE_EVENT_CODE"@,
        SpecLiteral::U16(codes.programmer_start_config_upgrade),
    ).insert(
        "PROGRAMMER_SET_DEVICE_ADDRESS_EVENT_CODE"@,
        SpecLiteral::U16(codes.programmer_set_device_address),
    ).insert("MESSAGE_EVENT_CODE"@, SpecLiteral::U16(codes.message))
}

/// What a program has declared so far.
#[derive(Debug)]
pub struct Program {
    pub constants: Constants,
    pub variables: StateVariables,
    pub config: Config,
}

/// The model of a [`Program`].
pub ghost struct SpecProgram {
    pub constants: SpecConstants,
    pub variables: SpecVariables,
    pub config: SpecConfig,
}

impl DeepView for Program {
    type V = SpecProgram;

    open spec fn deep_view(&self) -> SpecProgram {
        SpecProgram {
            constants: self.constants@,
            variables: self.variables@,
            config: self.config.deep_view(),
        }
    }
}

/// The program that has declared nothing but the constants `constants`.
pub open spec fn fresh(constants: SpecConstants) -> SpecProgram {
    SpecProgram {
        constants,
        variables: Map::empty(),
        config: SpecConfig {
            peripherals: Map::empty(),
            initial_state: Seq::empty(),
            event_processors: Seq::empty(),
        },
    }
}

/// The program `p` after the statement `statement`. A peripheral is
/// entered under its index, and a constant under its name; a rule joins the
/// rules at the end. A state variable takes the next free slot: its initial
/// value, which is any literal but a string, joins the initial state at the
/// end, and its name is bound to the slot's index as a state variable and,
/// as a `u32`, as a constant. A declaration of a name or an index that is
/// declared already replaces the earlier one. The index of a slot is the
/// number of the slots before it, as far as 32 bits hold it.
pub open spec fn declare(p: SpecProgram, statement: SpecStatement) -> Result<
    SpecProgram,
    SpecError,
> {
    match statement {
        SpecStatement::Peripheral(index, peripheral) => Ok(
            SpecProgram {
                config: SpecConfig {
                    peripherals: p.config.peripherals.insert(index, peripheral),
                    ..p.config
                },
                ..p
            },
        ),
        SpecStatement::Let(name, value) => match spec_to_value(value) {
            Ok(initial) => {
                let slot = p.config.initial_state.len() as u32;
                Ok(
                    SpecProgram {
                        constants: p.constants.insert(name, SpecLiteral::U32(slot)),
                        variables: p.variables.insert(name, slot),
                        config: SpecConfig {
                            initial_state: p.config.initial_state.push(initial),
                            ..p.config
                        },
                    },
                )
            },
            Err(e) => Err(e),
        },
        SpecStatement::Const(name, value) => Ok(
            SpecProgram { constants: p.constants.insert(name, value), ..p },
        ),
        SpecStatement::Rule(rule) => Ok(
            SpecProgram {
                config: SpecConfig {
                    event_processors: p.config.event_processors.push(rule),
                    ..p.config
                },
                ..p
            },
        ),
    }
}

/// The failure of a text at `s` that starts with no statement and no blank
/// space: the failures of the six kinds of statement are the cause.
pub open spec fn nothing_recognised(s: Seq<char>, siblings: SpecError) -> SpecError {
    caused(s, ErrorKind::Expected(Expectation::Something), siblings)
}

/// The configuration that the statements of `s` make of the program `p`.
/// Before each statement blank space is skipped. A fatal failure of a
/// statement, and the failure of a declaration, is the failure of the
/// program. Where no statement is recognised, blank space is skipped, and
/// where there is none, the program fails at that place.
pub open spec fn spec_statements(tick: u16, s: Seq<char>, p: SpecProgram) -> Result<
    SpecConfig,
    SpecError,
>
    decreases s.len(),
{
    if s.len() == 0 {
        Ok(p.config)
    } else {
        proof {
            lemma_scan_advances(s, CharClass::Space);
            law_statement_advances(p.constants, p.variables, tick, spec_multispace0(s));
        }
        match spec_statement(p.constants, p.variables, tick, spec_multispace0(s)) {
            Outcome::Parsed { rest, value } => match declare(p, value) {
                Ok(next) => spec_statements(tick, rest, next),
                Err(e) => Err(e),
            },
            Outcome::Fatal(e) => Err(e),
            Outcome::Recoverable(siblings) => match spec_multispace1(s) {
                Outcome::Parsed { rest, value } => spec_statements(tick, rest, p),
                _ => Err(nothing_recognised(s, siblings)),
            },
        }
    }
}

/// The configuration that the program `text` describes, with the event
/// codes `codes`: comments are left out, the constants are seeded with the
/// codes, and the statements are read from the first to the last.
pub open spec fn spec_parse(text: Seq<char>, codes: EventCodes) -> Result<SpecConfig, SpecError> {
    spec_statements(codes.internal_system_tick, strip_comments(text), fresh(seeded(codes)))
}

impl Program {
    /// The program that has declared nothing but the constants `constants`.
    pub fn new(constants: Constants) -> (p: Program)
        ensures
            p.deep_view() == fresh(constants@),
    {
        let p = Program {
            constants,
            variables: StateVariables::new(),
            config: Config {
                peripherals: Vec::new(),
                initial_state: Vec::new(),
                event_processors: Vec::new(),
            },
        };
        proof {
            assert(p.config.peripherals.deep_view() =~= Seq::empty());
            assert(p.config.event_processors.deep_view() =~= Seq::empty());
        }
        p
    }

    /// Enters what `statement` declares.
    pub fn declare<'a>(&mut self, statement: Statement<'a>) -> (r: Result<(), ParserError>)
        ensures
            match declare(old(self).deep_view(), statement.deep_view()) {
                Ok(next) => r is Ok && final(self).deep_view() == next,
                Err(e) => r matches Err(f) && f.deep_view() == e && *final(self) == *old(self),
            },
    {
        match statement {
            Statement::Peripheral(index, peripheral) => {
                let ghost before = self.config.peripherals.deep_view();
                self.config.peripherals.push((index, peripheral));
                proof {
                    let now = self.config.peripherals.deep_view();
                    assert(now.drop_last() =~= before);
                    assert(now.last() == (index, peripheral.deep_view()));
                }
                Ok(())
            },
            Statement::Let(name, value) => {
                let initial = value.to_value()?;
                let slot = #[verifier::truncate]
                (self.config.initial_state.len() as u32);
                self.config.initial_state.push(initial);
                self.variables.insert(name, slot);
                self.constants.insert(name, Literal::U32(slot));
                Ok(())
            },
            Statement::Const(name, value) => {
                self.constants.insert(name, value);
                Ok(())
            },
            Statement::Rule(rule) => {
                let ghost before = self.config.event_processors.deep_view();
                self.config.event_processors.push(rule);
                proof {
                    assert(self.config.event_processors.deep_view() =~= before.push(
                        rule.deep_view(),
                    ));
                }
                Ok(())
            },
        }
    }
}

} // verus!
