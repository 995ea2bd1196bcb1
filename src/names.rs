use vstd::prelude::*;

verus! {

/// The name every unmapped byte value gets.
pub open spec fn unknown_name() -> Seq<char> {
    "Unknown"@
}

/// Name of a command set, `Unknown` for a byte value with no set assigned.
pub open spec fn set_name(command_set: u8) -> Seq<char> {
    if command_set == 1 {
        "VirtualMachine"@
    } else if command_set == 2 {
        "ReferenceType"@
    } else if command_set == 3 {
        "ClassType"@
    } else if command_set == 4 {
        "ArrayType"@
    } else if command_set == 5 {
        "InterfaceType"@
    } else if command_set == 6 {
        "Method"@
    } else if command_set == 8 {
        "Field"@
    } else if command_set == 9 {
        "ObjectReference"@
    } else if command_set == 10 {
        "StringReference"@
    } else if command_set == 11 {
        "ThreadReference"@
    } else if command_set == 12 {
        "ThreadGroupReference"@
    } else if command_set == 13 {
        "ArrayReference"@
    } else if command_set == 14 {
        "ClassLoaderReference"@
    } else if command_set == 15 {
        "EventRequest"@
    } else if command_set == 16 {
        "StackFrame"@
    } else if command_set == 17 {
        "ClassObjectReference"@
    } else if command_set == 18 {
        "ModuleReference"@
    } else if command_set == 64 {
        "Event"@
    } else {
        unknown_name()
    }
}

/// Whether a command set has a name of its own.
pub open spec fn is_known_set(command_set: u8) -> bool {
    command_set == 1
        || command_set == 2
        || command_set == 3
        || command_set == 4
        || command_set == 5
        || command_set == 6
        || command_set == 8
        || command_set == 9
        || command_set == 10
        || command_set == 11
        || command_set == 12
        || command_set == 13
        || command_set == 14
        || command_set == 15
        || command_set == 16
        || command_set == 17
        || command_set == 18
        || command_set == 64
}

/// Names of the commands of the `VirtualMachine` set.
pub open spec fn commands_of_virtual_machine(command: u8) -> Seq<char> {
    if command == 1 {
        "Version"@
    } else if command == 2 {
        "ClassesBySignature"@
    } else if command == 3 {
        "AllClasses"@
    } else if command == 4 {
        "AllThreads"@
    } else if command == 5 {
        "TopLevelThreadGroups"@
    } else if command == 6 {
        "Dispose"@
    } else if command == 7 {
        "IDSizes"@
    } else if command == 8 {
        "Suspend"@
    } else if command == 9 {
        "Resume"@
    } else if command == 10 {
        "Exit"@
    } else if command == 11 {
        "CreateString"@
    } else if command == 12 {
        "Capabilities"@
    } else if command == 13 {
        "ClassPaths"@
    } else if command == 14 {
        "DisposeObjects"@
    } else if command == 15 {
        "HoldEvents"@
    } else if command == 16 {
        "ReleaseEvents"@
    } else if command == 17 {
        "CapabilitiesNew"@
    } else if command == 18 {
        "RedefineClasses"@
    } else if command == 19 {
        "SetDefaultStratum"@
    } else if command == 20 {
        "AllClassesWithGeneric"@
    } else if command == 21 {
        "InstanceCounts"@
    } else if command == 22 {
        "AllModules"@
    } else {
        unknown_name()
    }
}

/// Names of the commands of the `ReferenceType` set.
pub open spec fn commands_of_reference_type(command: u8) -> Seq<char> {
    if command == 1 {
        "Signature"@
    } else if command == 2 {
        "ClassLoader"@
    } else if command == 3 {
        "Modifiers"@
    } else if command == 4 {
        "Fields"@
    } else if command == 5 {
        "Methods"@
    } else if command == 6 {
        "GetValues"@
    } else if command == 7 {
        "SourceFile"@
    } else if command == 8 {
        "NestedTypes"@
    } else if command == 9 {
        "Status"@
    } else if command == 10 {
        "Interfaces"@
    } else if command == 11 {
        "ClassObject"@
    } else if command == 12 {
        "SourceDebugExtension"@
    } else if command == 13 {
        "SignatureWithGeneric"@
    } else if command == 14 {
        "FieldsWithGeneric"@
    } else if command == 15 {
        "MethodsWithGeneric"@
    } else if command == 16 {
        "Instances"@
    } else if command == 17 {
        "ClassFileVersion"@
    } else if command == 18 {
        "ConstantPool"@
    } else if command == 19 {
        "Module"@
    } else {
        unknown_name()
    }
}

/// Names of the commands of the `ClassType` set.
pub open spec fn commands_of_class_type(command: u8) -> Seq<char> {
    if command == 1 {
        "Superclass"@
    } else if command == 2 {
        "SetValues"@
    } else if command == 3 {
        "InvokeMethod"@
    } else if command == 4 {
        "NewInstance"@
    } else {
        unknown_name()
    }
}

/// Names of the commands of the `ArrayType` set.
pub open spec fn commands_of_array_type(command: u8) -> Seq<char> {
    if command == 1 {
        "NewInstance"@
    } else {
        unknown_name()
    }
}

/// Names of the commands of the `InterfaceType` set.
pub open spec fn commands_of_interface_type(command: u8) -> Seq<char> {
    if command == 1 {
        "InvokeMethod"@
    } else {
        unknown_name()
    }
}

/// Names of the commands of the `Method` set.
pub open spec fn commands_of_method(command: u8) -> Seq<char> {
    if command == 1 {
        "LineTable"@
    } else if command == 2 {
        "VariableTable"@
    } else if command == 3 {
        "Bytecodes"@
    } else if command == 4 {
        "IsObsolete"@
    } else if command == 5 {
        "VariableTableWithGeneric"@
    } else {
        unknown_name()
    }
}

/// Names of the commands of the `ObjectReference` set.
pub open spec fn commands_of_object_reference(command: u8) -> Seq<char> {
    if command == 1 {
        "ReferenceType"@
    } else if command == 2 {
        "GetValues"@
    } else if command == 3 {
        "SetValues"@
    } else if command == 5 {
        "MonitorInfo"@
    } else if command == 6 {
        "InvokeMethod"@
    } else if command == 7 {
        "DisableCollection"@
    } else if command == 8 {
        "EnableCollection"@
    } else if command == 9 {
        "IsCollected"@
    } else if command == 10 {
        "ReferringObjects"@
    } else {
        unknown_name()
    }
}

/// Names of the commands of the `StringReference` set.
pub open spec fn commands_of_string_reference(command: u8) -> Seq<char> {
    if command == 1 {
        "Value"@
    } else {
        unknown_name()
    }
}

/// Names of the commands of the `ThreadReference` set.
pub open spec fn commands_of_thread_reference(command: u8) -> Seq<char> {
    if command == 1 {
        "Name"@
    } else if command == 2 {
        "Suspend"@
    } else if command == 3 {
        "Resume"@
    } else if command == 4 {
        "Status"@
    } else if command == 5 {
        "ThreadGroup"@
    } else if command == 6 {
        "Frames"@
    } else if command == 7 {
        "FrameCount"@
    } else if command == 8 {
        "OwnedMonitors"@
    } else if command == 9 {
        "CurrentContendedMonitor"@
    } else if command == 10 {
        "Stop"@
    } else if command == 11 {
        "Interrupt"@
    } else if command == 12 {
        "SuspendCount"@
    } else if command == 13 {
        "OwnedMonitorsStackDepthInfo"@
    } else if command == 14 {
        "ForceEarlyReturn"@
    } else if command == 15 {
        "IsVirtual"@
    } else {
        unknown_name()
    }
}

/// Names of the commands of the `ThreadGroupReference` set.
pub open spec fn commands_of_thread_group_reference(command: u8) -> Seq<char> {
    if command == 1 {
        "Name"@
    } else if command == 2 {
        "Parent"@
    } else if command == 3 {
        "Child"@
    } else {
        unknown_name()
    }
}

/// Names of the commands of the `ArrayReference` set.
pub open spec fn commands_of_array_reference(command: u8) -> Seq<char> {
    if command == 1 {
        "Length"@
    } else if command == 2 {
        "GetValues"@
    } else if command == 3 {
        "SetValues"@
    } else {
        unknown_name()
    }
}

/// Names of the commands of the `ClassLoaderReference` set.
pub open spec fn commands_of_class_loader_reference(command: u8) -> Seq<char> {
    if command == 1 {
        "VisibleClasses"@
    } else {
        unknown_name()
    }
}

/// Names of the commands of the `EventRequest` set.
pub open spec fn commands_of_event_request(command: u8) -> Seq<char> {
    if command == 1 {
        "Set"@
    } else if command == 2 {
        "Clear"@
    } else if command == 3 {
        "ClearAllBreakpoints"@
    } else {
        unknown_name()
    }
}

/// Names of the commands of the `StackFrame` set.
pub open spec fn commands_of_stack_frame(command: u8) -> Seq<char> {
    if command == 1 {
        "GetValues"@
    } else if command == 2 {
        "SetValues"@
    } else if command == 3 {
        "ThisObject"@
    } else if command == 4 {
        "PopFrames"@
    } else {
        unknown_name()
    }
}

/// Names of the commands of the `ClassObjectReference` set.
pub open spec fn commands_of_class_object_reference(command: u8) -> Seq<char> {
    if command == 1 {
        "ReflectedType"@
    } else {
        unknown_name()
    }
}

/// Names of the commands of the `ModuleReference` set.
pub open spec fn commands_of_module_reference(command: u8) -> Seq<char> {
    if command == 1 {
        "Name"@
    } else if command == 2 {
        "ClassLoader"@
    } else {
        unknown_name()
    }
}

/// Names of the commands of the `Event` set.
pub open spec fn commands_of_event(command: u8) -> Seq<char> {
    if command == 100 {
        "Composite"@
    } else {
        unknown_name()
    }
}

/// Name of a command within its set: an unmapped set gives `Unknown`
/// whatever the command byte is.
pub open spec fn command_name(command_set: u8, command: u8) -> Seq<char> {
    if command_set == 1 {
        commands_of_virtual_machine(command)
    } else if command_set == 2 {
        commands_of_reference_type(command)
    } else if command_set == 3 {
        commands_of_class_type(command)
    } else if command_set == 4 {
        commands_of_array_type(command)
    } else if command_set == 5 {
        commands_of_interface_type(command)
    } else if command_set == 6 {
        commands_of_method(command)
    } else if command_set == 9 {
        commands_of_object_reference(command)
    } else if command_set == 10 {
        commands_of_string_reference(command)
    } else if command_set == 11 {
        commands_of_thread_reference(command)
    } else if command_set == 12 {
        commands_of_thread_group_reference(command)
    } else if command_set == 13 {
        commands_of_array_reference(command)
    } else if command_set == 14 {
        commands_of_class_loader_reference(command)
    } else if command_set == 15 {
        commands_of_event_request(command)
    } else if command_set == 16 {
        commands_of_stack_frame(command)
    } else if command_set == 17 {
        commands_of_class_object_reference(command)
    } else if command_set == 18 {
        commands_of_module_reference(command)
    } else if command_set == 64 {
        commands_of_event(command)
    } else {
        unknown_name()
    }
}

/// Name of a command set.
pub fn command_set_to_name(command_set: u8) -> (r: &'static str)
    ensures
        r@ == set_name(command_set),
{
    match command_set {
        1 => "VirtualMachine",
        2 => "ReferenceType",
        3 => "ClassType",
        4 => "ArrayType",
        5 => "InterfaceType",
        6 => "Method",
        8 => "Field",
        9 => "ObjectReference",
        10 => "StringReference",
        11 => "ThreadReference",
        12 => "ThreadGroupReference",
        13 => "ArrayReference",
        14 => "ClassLoaderReference",
        15 => "EventRequest",
        16 => "StackFrame",
        17 => "ClassObjectReference",
        18 => "ModuleReference",
        64 => "Event",
        _ => "Unknown",
    }
}

fn virtual_machine_command(command: u8) -> (r: &'static str)
    ensures
        r@ == commands_of_virtual_machine(command),
{
    match command {
        1 => "Version",
        2 => "ClassesBySignature",
        3 => "AllClasses",
        4 => "AllThreads",
        5 => "TopLevelThreadGroups",
        6 => "Dispose",
        7 => "IDSizes",
        8 => "Suspend",
        9 => "Resume",
        10 => "Exit",
        11 => "CreateString",
        12 => "Capabilities",
        13 => "ClassPaths",
        14 => "DisposeObjects",
        15 => "HoldEvents",
        16 => "ReleaseEvents",
        17 => "CapabilitiesNew",
        18 => "RedefineClasses",
        19 => "SetDefaultStratum",
        20 => "AllClassesWithGeneric",
        21 => "InstanceCounts",
        22 => "AllModules",
        _ => "Unknown",
    }
}

fn reference_type_command(command: u8) -> (r: &'static str)
    ensures
        r@ == commands_of_reference_type(command),
{
    match command {
        1 => "Signature",
        2 => "ClassLoader",
        3 => "Modifiers",
        4 => "Fields",
        5 => "Methods",
        6 => "GetValues",
        7 => "SourceFile",
        8 => "NestedTypes",
        9 => "Status",
        10 => "Interfaces",
        11 => "ClassObject",
        12 => "SourceDebugExtension",
        13 => "SignatureWithGeneric",
        14 => "FieldsWithGeneric",
        15 => "MethodsWithGeneric",
        16 => "Instances",
        17 => "ClassFileVersion",
        18 => "ConstantPool",
        19 => "Module",
        _ => "Unknown",
    }
}

fn class_type_command(command: u8) -> (r: &'static str)
    ensures
        r@ == commands_of_class_type(command),
{
    match command {
        1 => "Superclass",
        2 => "SetValues",
        3 => "InvokeMethod",
        4 => "NewInstance",
        _ => "Unknown",
    }
}

fn array_type_command(command: u8) -> (r: &'static str)
    ensures
        r@ == commands_of_array_type(command),
{
    match command {
        1 => "NewInstance",
        _ => "Unknown",
    }
}

fn interface_type_command(command: u8) -> (r: &'static str)
    ensures
        r@ == commands_of_interface_type(command),
{
    match command {
        1 => "InvokeMethod",
        _ => "Unknown",
    }
}

fn method_command(command: u8) -> (r: &'static str)
    ensures
        r@ == commands_of_method(command),
{
    match command {
        1 => "LineTable",
        2 => "VariableTable",
        3 => "Bytecodes",
        4 => "IsObsolete",
        5 => "VariableTableWithGeneric",
        _ => "Unknown",
    }
}

fn object_reference_command(command: u8) -> (r: &'static str)
    ensures
        r@ == commands_of_object_reference(command),
{
    match command {
        1 => "ReferenceType",
        2 => "GetValues",
        3 => "SetValues",
        5 => "MonitorInfo",
        6 => "InvokeMethod",
        7 => "DisableCollection",
        8 => "EnableCollection",
        9 => "IsCollected",
        10 => "ReferringObjects",
        _ => "Unknown",
    }
}

fn string_reference_command(command: u8) -> (r: &'static str)
    ensures
        r@ == commands_of_string_reference(command),
{
    match command {
        1 => "Value",
        _ => "Unknown",
    }
}

fn thread_reference_command(command: u8) -> (r: &'static str)
    ensures
        r@ == commands_of_thread_reference(command),
{
    match command {
        1 => "Name",
        2 => "Suspend",
        3 => "Resume",
        4 => "Status",
        5 => "ThreadGroup",
        6 => "Frames",
        7 => "FrameCount",
        8 => "OwnedMonitors",
        9 => "CurrentContendedMonitor",
        10 => "Stop",
        11 => "Interrupt",
        12 => "SuspendCount",
        13 => "OwnedMonitorsStackDepthInfo",
        14 => "ForceEarlyReturn",
        15 => "IsVirtual",
        _ => "Unknown",
    }
}

fn thread_group_reference_command(command: u8) -> (r: &'static str)
    ensures
        r@ == commands_of_thread_group_reference(command),
{
    match command {
        1 => "Name",
        2 => "Parent",
        3 => "Child",
        _ => "Unknown",
    }
}

fn array_reference_command(command: u8) -> (r: &'static str)
    ensures
        r@ == commands_of_array_reference(command),
{
    match command {
        1 => "Length",
        2 => "GetValues",
        3 => "SetValues",
        _ => "Unknown",
    }
}

fn class_loader_reference_command(command: u8) -> (r: &'static str)
    ensures
        r@ == commands_of_class_loader_reference(command),
{
    match command {
        1 => "VisibleClasses",
        _ => "Unknown",
    }
}

fn event_request_command(command: u8) -> (r: &'static str)
    ensures
        r@ == commands_of_event_request(command),
{
    match command {
        1 => "Set",
        2 => "Clear",
        3 => "ClearAllBreakpoints",
        _ => "Unknown",
    }
}

fn stack_frame_command(command: u8) -> (r: &'static str)
    ensures
        r@ == commands_of_stack_frame(command),
{
    match command {
        1 => "GetValues",
        2 => "SetValues",
        3 => "ThisObject",
        4 => "PopFrames",
        _ => "Unknown",
    }
}

fn class_object_reference_command(command: u8) -> (r: &'static str)
    ensures
        r@ == commands_of_class_object_reference(command),
{
    match command {
        1 => "ReflectedType",
        _ => "Unknown",
    }
}

fn module_reference_command(command: u8) -> (r: &'static str)
    ensures
        r@ == commands_of_module_reference(command),
{
    match command {
        1 => "Name",
        2 => "ClassLoader",
        _ => "Unknown",
    }
}

fn event_command(command: u8) -> (r: &'static str)
    ensures
        r@ == commands_of_event(command),
{
    match command {
        100 => "Composite",
        _ => "Unknown",
    }
}

/// Name of a command within its set.
pub fn command_to_name(command_set: u8, command: u8) -> (r: &'static str)
    ensures
        r@ == command_name(command_set, command),
        !is_known_set(command_set) ==> r@ == unknown_name(),
{
    match command_set {
        1 => virtual_machine_command(command),
        2 => reference_type_command(command),
        3 => class_type_command(command),
        4 => array_type_command(command),
        5 => interface_type_command(command),
        6 => method_command(command),
        9 => object_reference_command(command),
        10 => string_reference_command(command),
        11 => thread_reference_command(command),
        12 => thread_group_reference_command(command),
        13 => array_reference_command(command),
        14 => class_loader_reference_command(command),
        15 => event_request_command(command),
        16 => stack_frame_command(command),
        17 => class_object_reference_command(command),
        18 => module_reference_command(command),
        64 => event_command(command),
        _ => "Unknown",
    }
}

} // verus!
