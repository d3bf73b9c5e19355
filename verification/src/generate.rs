//! The Z-Stack command catalogue as the code generator reads it, and the plan of
//! the Rust items it generates: which enums, modules, structs and fields, under
//! which names and with which field types. Rendering the plan as Rust source is
//! left to the caller.
use vstd::prelude::*;

use heck::{ToPascalCase, ToSnekCase};

verus! {

/// Whether a command is a synchronous or an asynchronous request.
#[derive(Debug, Clone, Copy, PartialEq, Eq, Structural)]
pub enum CommandType {
    SyncRequest,
    AsyncRequest,
}

/// The wire type of a command parameter.
#[derive(Debug, Clone, Copy, PartialEq, Eq, Structural)]
pub enum ParameterType {
    Buffer,
    Buffer8,
    Buffer16,
    Buffer18,
    Buffer32,
    Buffer42,
    Buffer100,
    IeeeAddr,
    ListAssocDev,
    ListBindTable,
    ListNeighborLqi,
    ListNetwork,
    ListRoutingTable,
    ListUint8,
    ListUint16,
    Uint8,
    Uint16,
    Uint32,
    Int8,
}

/// A named parameter of a command.
#[derive(Debug)]
pub struct Parameter {
    pub name: String,
    pub parameter_type: ParameterType,
}

/// A command of a subsystem: its id, name, type, request parameters and, for
/// commands that answer, response parameters.
#[derive(Debug)]
pub struct SubsystemCommand {
    pub id: u8,
    pub name: String,
    pub type_: CommandType,
    pub request: Vec<Parameter>,
    pub response: Option<Vec<Parameter>>,
}

impl ParameterType {
    /// The Rust type, as source text, that a parameter of this type is held in.
    pub open spec fn type_text(self) -> Seq<char> {
        match self {
            ParameterType::Buffer => "Buffer"@,
            ParameterType::Buffer8 => "BufferN<8>"@,
            ParameterType::Buffer16 => "BufferN<16>"@,
            ParameterType::Buffer18 => "BufferN<18>"@,
            ParameterType::Buffer32 => "BufferN<32>"@,
            ParameterType::Buffer42 => "BufferN<42>"@,
            ParameterType::Buffer100 => "BufferN<100>"@,
            ParameterType::IeeeAddr => "IeeeAddr"@,
            ParameterType::ListAssocDev => "Vec<AssocDev>"@,
            ParameterType::ListBindTable => "Vec<BindTable>"@,
            ParameterType::ListNeighborLqi => "Vec<NeighborLqi>"@,
            ParameterType::ListNetwork => "Vec<Network>"@,
            ParameterType::ListRoutingTable => "Vec<RoutingTable>"@,
            ParameterType::ListUint8 => "Vec<u8>"@,
            ParameterType::ListUint16 => "Vec<u16>"@,
            ParameterType::Uint8 => "u8"@,
            ParameterType::Uint16 => "u16"@,
            ParameterType::Uint32 => "u32"@,
            ParameterType::Int8 => "i8"@,
        }
    }

    /// The Rust type, as source text, that a parameter of this type is held in.
    pub fn ty(&self) -> (t: &'static str)
        ensures
            t@ == self.type_text(),
    {
        match self {
            ParameterType::Buffer => "Buffer",
            ParameterType::Buffer8 => "BufferN<8>",
            ParameterType::Buffer16 => "BufferN<16>",
            ParameterType::Buffer18 => "BufferN<18>",
            ParameterType::Buffer32 => "BufferN<32>",
            ParameterType::Buffer42 => "BufferN<42>",
            ParameterType::Buffer100 => "BufferN<100>",
            ParameterType::IeeeAddr => "IeeeAddr",
            ParameterType::ListAssocDev => "Vec<AssocDev>",
            ParameterType::ListBindTable => "Vec<BindTable>",
            ParameterType::ListNeighborLqi => "Vec<NeighborLqi>",
            ParameterType::ListNetwork => "Vec<Network>",
            ParameterType::ListRoutingTable => "Vec<RoutingTable>",
            ParameterType::ListUint8 => "Vec<u8>",
            ParameterType::ListUint16 => "Vec<u16>",
            ParameterType::Uint8 => "u8",
            ParameterType::Uint16 => "u16",
            ParameterType::Uint32 => "u32",
            ParameterType::Int8 => "i8",
        }
    }
}

/// Different parameter types are held in different Rust types: the type text
/// tells the parameter type apart.
pub proof fn law_type_text_distinct(a: ParameterType, b: ParameterType)
    requires
        a != b,
    ensures
        a.type_text() != b.type_text(),
{
    let ta = a.type_text();
    let tb = b.type_text();
    reveal_strlit("Buffer");
    reveal_strlit("BufferN<8>");
    reveal_strlit("BufferN<16>");
    reveal_strlit("BufferN<18>");
    reveal_strlit("BufferN<32>");
    reveal_strlit("BufferN<42>");
    reveal_strlit("BufferN<100>");
    reveal_strlit("IeeeAddr");
    reveal_strlit("Vec<AssocDev>");
    reveal_strlit("Vec<BindTable>");
    reveal_strlit("Vec<NeighborLqi>");
    reveal_strlit("Vec<Network>");
    reveal_strlit("Vec<RoutingTable>");
    reveal_strlit("Vec<u8>");
    reveal_strlit("Vec<u16>");
    reveal_strlit("u8");
    reveal_strlit("u16");
    reveal_strlit("u32");
    reveal_strlit("i8");
    assert((ta.len(), ta[0], ta[1], ta[ta.len() - 3], ta[ta.len() - 2]) != (
        tb.len(),
        tb[0],
        tb[1],
        tb[tb.len() - 3],
        tb[tb.len() - 2],
    ));
}

/// The Rust type each catalogue parameter type is held in: raw buffers as
/// `Buffer`, fixed-size buffers as `BufferN<size>` with the size in the type's
/// name, IEEE addresses as `IeeeAddr`, lists as `Vec` of their element type, and
/// integers as the integer type of their width and sign.
pub proof fn law_type_text_table(p: ParameterType)
    ensures
        p == ParameterType::Buffer ==> p.type_text() == "Buffer"@,
        p == ParameterType::Buffer8 ==> p.type_text() == "BufferN<8>"@,
        p == ParameterType::Buffer16 ==> p.type_text() == "BufferN<16>"@,
        p == ParameterType::Buffer18 ==> p.type_text() == "BufferN<18>"@,
        p == ParameterType::Buffer32 ==> p.type_text() == "BufferN<32>"@,
        p == ParameterType::Buffer42 ==> p.type_text() == "BufferN<42>"@,
        p == ParameterType::Buffer100 ==> p.type_text() == "BufferN<100>"@,
        p == ParameterType::IeeeAddr ==> p.type_text() == "IeeeAddr"@,
        p == ParameterType::ListAssocDev ==> p.type_text() == "Vec<AssocDev>"@,
        p == ParameterType::ListBindTable ==> p.type_text() == "Vec<BindTable>"@,
        p == ParameterType::ListNeighborLqi ==> p.type_text() == "Vec<NeighborLqi>"@,
        p == ParameterType::ListNetwork ==> p.type_text() == "Vec<Network>"@,
        p == ParameterType::ListRoutingTable ==> p.type_text() == "Vec<RoutingTable>"@,
        p == ParameterType::ListUint8 ==> p.type_text() == "Vec<u8>"@,
        p == ParameterType::ListUint16 ==> p.type_text() == "Vec<u16>"@,
        p == ParameterType::Uint8 ==> p.type_text() == "u8"@,
        p == ParameterType::Uint16 ==> p.type_text() == "u16"@,
        p == ParameterType::Uint32 ==> p.type_text() == "u32"@,
        p == ParameterType::Int8 ==> p.type_text() == "i8"@,
{
}

/// What `heck`'s PascalCase conversion makes of a text.
pub uninterp spec fn pascal_case(s: Seq<char>) -> Seq<char>;

/// What `heck`'s snake_case conversion makes of a text.
pub uninterp spec fn snake_case(s: Seq<char>) -> Seq<char>;

/// `heck::ToPascalCase::to_pascal_case` on a `str`: its result is named, not
/// described; it depends on the text alone.
#[verifier::external_body]
fn to_pascal_case(s: &str) -> (r: String)
    ensures
        r@ == pascal_case(s@),
{
    s.to_pascal_case()
}

/// `heck::ToSnekCase::to_snek_case` on a `str`: its result is named, not
/// described; it depends on the text alone.
#[verifier::external_body]
fn to_snek_case(s: &str) -> (r: String)
    ensures
        r@ == snake_case(s@),
{
    s.to_snek_case()
}

/// The text after the last `.` of `s`, or all of `s` when it has none.
pub open spec fn last_segment(s: Seq<char>) -> Seq<char>
    decreases s.len(),
{
    if s.len() == 0 {
        s
    } else if s.last() == '.' {
        Seq::empty()
    } else {
        last_segment(s.drop_last()).push(s.last())
    }
}

/// The name of a struct field for a parameter: its name in snake_case, with the
/// keyword `type` written as the raw identifier `r#type`.
pub open spec fn field_name_text(param_name: Seq<char>) -> Seq<char> {
    if snake_case(param_name) == "type"@ {
        "r#type"@
    } else {
        snake_case(param_name)
    }
}

/// The name of a subsystem, from its key in the catalogue (`"ZStack.SYS"`,
/// say): the last dotted segment in PascalCase.
pub open spec fn subsystem_name_text(key: Seq<char>) -> Seq<char> {
    pascal_case(last_segment(key))
}

/// A field of a generated struct: its name and its type as source text.
pub struct FieldPlan {
    pub name: String,
    pub ty: &'static str,
}

/// A generated struct: its name and its fields, in order.
pub struct StructPlan {
    pub name: String,
    pub fields: Vec<FieldPlan>,
}

/// What is generated for a command: its variant in the subsystem's enum, the
/// request struct, and the response struct for commands that answer.
pub struct CommandPlan {
    pub variant: String,
    pub request: StructPlan,
    pub response: Option<StructPlan>,
}

/// What is generated for a subsystem: its variant in the root enum, its own
/// enum, its module, and what is generated for each of its commands, in order.
pub struct SubsystemPlan {
    pub variant: String,
    pub enum_name: String,
    pub module: String,
    pub commands: Vec<CommandPlan>,
}

/// `fields` are the struct fields for `params`, one each, in order.
pub open spec fn fields_planned(params: Seq<Parameter>, fields: Seq<FieldPlan>) -> bool {
    &&& fields.len() == params.len()
    &&& forall|i: int|
        #![trigger fields[i]]
        0 <= i < params.len() ==> fields[i].name@ == field_name_text(params[i].name@)
            && fields[i].ty@ == params[i].parameter_type.type_text()
}

/// `plan` is what is generated for `command`.
pub open spec fn command_planned(command: SubsystemCommand, plan: CommandPlan) -> bool {
    &&& plan.variant@ == pascal_case(command.name@)
    &&& plan.request.name@ == pascal_case(command.name@)
    &&& fields_planned(command.request@, plan.request.fields@)
    &&& match command.response {
        None => plan.response is None,
        Some(params) => plan.response matches Some(response) && response.name@ == pascal_case(
            command.name@,
        ) + "Response"@ && fields_planned(params@, response.fields@),
    }
}

/// `plan` is what is generated for the subsystem under `key` with `commands`.
pub open spec fn subsystem_planned(
    key: Seq<char>,
    commands: Seq<SubsystemCommand>,
    plan: SubsystemPlan,
) -> bool {
    &&& plan.variant@ == subsystem_name_text(key)
    &&& plan.enum_name@ == pascal_case(subsystem_name_text(key)) + "Subsystem"@
    &&& plan.module@ == snake_case(subsystem_name_text(key))
    &&& plan.commands.len() == commands.len()
    &&& forall|i: int|
        #![trigger plan.commands[i]]
        0 <= i < commands.len() ==> command_planned(commands[i], plan.commands[i])
}

/// The last segment of a text is a suffix of it without a `.`, and it is
/// either the whole text or it stands right after a `.`.
pub proof fn law_last_segment(s: Seq<char>)
    ensures
        last_segment(s).len() <= s.len(),
        last_segment(s) == s.skip(s.len() - last_segment(s).len()),
        !last_segment(s).contains('.'),
        last_segment(s).len() == s.len() || s[s.len() - last_segment(s).len() - 1] == '.',
    decreases s.len(),
{
    if s.len() == 0 {
        assert(s.skip(0) =~= s);
    } else if s.last() == '.' {
        assert(s.skip(s.len() as int) =~= Seq::<char>::empty());
    } else {
        let rest = s.drop_last();
        law_last_segment(rest);
        let seg = last_segment(rest);
        assert(last_segment(s) == seg.push(s.last()));
        assert(seg.push(s.last()) =~= s.skip(s.len() - seg.len() - 1));
        assert forall|j: int| 0 <= j < seg.len() + 1 implies seg.push(s.last())[j] != '.' by {
            if j < seg.len() {
                assert(!seg.contains('.'));
                assert(seg[j] != '.');
            }
        }
        if seg.len() < rest.len() {
            assert(rest[rest.len() - seg.len() - 1] == s[s.len() - (seg.len() + 1) - 1]);
        }
    }
}

/// A field name is the parameter's snake_case name, except that a name that is
/// exactly `type` is written as the raw identifier `r#type`.
pub proof fn law_field_name(param_name: Seq<char>)
    ensures
        snake_case(param_name) != "type"@ ==> field_name_text(param_name) == snake_case(param_name),
        snake_case(param_name) == "type"@ ==> field_name_text(param_name) == "r#type"@,
{
}

/// Planned fields follow the parameters one for one and in order: the field at
/// each position is named and typed from the parameter at that position.
pub proof fn law_fields_in_order(params: Seq<Parameter>, fields: Seq<FieldPlan>, i: int)
    requires
        fields_planned(params, fields),
        0 <= i < params.len(),
    ensures
        fields.len() == params.len(),
        fields[i].name@ == field_name_text(params[i].name@),
        fields[i].ty@ == params[i].parameter_type.type_text(),
{
}

/// A command's planned request struct is named after the command and has one
/// field per request parameter, in order; a command with response parameters
/// gets a `...Response` struct with one field per response parameter, in order.
pub proof fn law_command_plan_in_order(command: SubsystemCommand, plan: CommandPlan, i: int)
    requires
        command_planned(command, plan),
    ensures
        plan.request.name@ == pascal_case(command.name@),
        plan.request.fields.len() == command.request.len(),
        0 <= i < command.request.len() ==> plan.request.fields[i].name@ == field_name_text(
            command.request[i].name@,
        ) && plan.request.fields[i].ty@ == command.request[i].parameter_type.type_text(),
        command.response is None <==> plan.response is None,
        command.response matches Some(params) ==> {
            &&& plan.response matches Some(response)
            &&& response.name@ == pascal_case(command.name@) + "Response"@
            &&& response.fields.len() == params.len()
            &&& 0 <= i < params.len() ==> response.fields[i].name@ == field_name_text(
                params[i].name@,
            ) && response.fields[i].ty@ == params[i].parameter_type.type_text()
        },
{
    if 0 <= i < command.request.len() {
        let _ = plan.request.fields@[i];
    }
    if let Some(params) = command.response {
        let response = plan.response.unwrap();
        if 0 <= i < params.len() {
            let _ = response.fields@[i];
        }
    }
}

/// A subsystem's plan: its variant is the PascalCase last segment of its key,
/// its enum is that name in PascalCase followed by `Subsystem`, its module is
/// that name in snake_case, and its commands are planned one for one and in
/// order, each command variant named after the command at the same position.
pub proof fn law_subsystem_plan_in_order(
    key: Seq<char>,
    commands: Seq<SubsystemCommand>,
    plan: SubsystemPlan,
    i: int,
)
    requires
        subsystem_planned(key, commands, plan),
    ensures
        plan.variant@ == pascal_case(last_segment(key)),
        plan.enum_name@ == pascal_case(pascal_case(last_segment(key))) + "Subsystem"@,
        plan.module@ == snake_case(pascal_case(last_segment(key))),
        plan.commands.len() == commands.len(),
        0 <= i < commands.len() ==> plan.commands[i].variant@ == pascal_case(commands[i].name@)
            && command_planned(commands[i], plan.commands[i]),
{
    if 0 <= i < commands.len() {
        let _ = plan.commands@[i];
    }
}

/// The text after the last `.` of `key`, or all of `key` when it has none.
pub fn last_segment_of(key: &str) -> (segment: &str)
    ensures
        segment@ == last_segment(key@),
{
    let ghost s = key@;
    let n: usize = key.unicode_len();
    let mut i: usize = n;
    proof {
        assert(s.take(n as int) =~= s);
        assert(last_segment(s) + s.subrange(n as int, n as int) =~= last_segment(s));
    }
    while i > 0
        invariant_except_break
            i <= n,
            n == s.len(),
            s == key@,
            last_segment(s) == last_segment(s.take(i as int)) + s.subrange(i as int, n as int),
        ensures
            i <= n,
            n == s.len(),
            s == key@,
            last_segment(s) == s.subrange(i as int, n as int),
        decreases i,
    {
        let c: char = key.get_char(i - 1);
        proof {
            assert(s.take(i as int).drop_last() =~= s.take(i - 1));
            assert(s.take(i as int).last() == c);
        }
        if c == '.' {
            assert(last_segment(s.take(i as int)) =~= Seq::<char>::empty());
            assert(last_segment(s) =~= s.subrange(i as int, n as int));
            break;
        }
        proof {
            assert(last_segment(s.take(i as int)) == last_segment(s.take(i - 1)).push(c));
            assert(last_segment(s.take(i - 1)) + s.subrange(i - 1, n as int) =~= last_segment(
                s.take(i as int),
            ) + s.subrange(i as int, n as int));
        }
        i = i - 1;
    }
    proof {
        if i == 0 {
            assert(s.take(0) =~= Seq::<char>::empty());
            assert(last_segment(s) =~= s.subrange(0, n as int));
        }
    }
    key.substring_char(i, n)
}

/// The name of the struct field for a parameter called `param_name`.
pub fn field_name(param_name: &str) -> (name: String)
    ensures
        name@ == field_name_text(param_name@),
{
    let mut name = to_snek_case(param_name);
    if name == String::from_str("type") {
        name = String::from_str("r#type");
    }
    name
}

/// The name of the subsystem under `key` in the catalogue.
pub fn subsystem_name(key: &str) -> (name: String)
    ensures
        name@ == subsystem_name_text(key@),
{
    to_pascal_case(last_segment_of(key))
}

/// The struct fields for `params`, one each, in order.
pub fn plan_fields(params: &Vec<Parameter>) -> (fields: Vec<FieldPlan>)
    ensures
        fields_planned(params@, fields@),
{
    let mut fields: Vec<FieldPlan> = Vec::new();
    let mut i: usize = 0;
    while i < params.len()
        invariant
            i <= params.len(),
            fields.len() == i,
            forall|j: int|
                #![trigger fields@[j]]
                0 <= j < i ==> fields@[j].name@ == field_name_text(params@[j].name@)
                    && fields@[j].ty@ == params@[j].parameter_type.type_text(),
        decreases params.len() - i,
    {
        let param = &params[i];
        let field = FieldPlan { name: field_name(param.name.as_str()), ty: param.parameter_type.ty() };
        fields.push(field);
        i = i + 1;
    }
    fields
}

/// What is generated for `command`.
pub fn plan_command(command: &SubsystemCommand) -> (plan: CommandPlan)
    ensures
        command_planned(*command, plan),
{
    let variant = to_pascal_case(command.name.as_str());
    let request = StructPlan { name: variant.clone(), fields: plan_fields(&command.request) };
    let response = match &command.response {
        Some(params) => {
            let mut name = to_pascal_case(command.name.as_str());
            name.append("Response");
            Some(StructPlan { name, fields: plan_fields(params) })
        },
        None => None,
    };
    CommandPlan { variant, request, response }
}

/// What is generated for the subsystem under `key` with `commands`.
pub fn plan_subsystem(key: &str, commands: &Vec<SubsystemCommand>) -> (plan: SubsystemPlan)
    ensures
        subsystem_planned(key@, commands@, plan),
{
    let variant = subsystem_name(key);
    let mut enum_name = to_pascal_case(variant.as_str());
    enum_name.append("Subsystem");
    let module = to_snek_case(variant.as_str());
    let mut planned: Vec<CommandPlan> = Vec::new();
    let mut i: usize = 0;
    while i < commands.len()
        invariant
            i <= commands.len(),
            planned.len() == i,
            forall|j: int|
                #![trigger planned@[j]]
                0 <= j < i ==> command_planned(commands@[j], planned@[j]),
        decreases commands.len() - i,
    {
        planned.push(plan_command(&commands[i]));
        i = i + 1;
    }
    SubsystemPlan { variant, enum_name, module, commands: planned }
}

} // verus!
