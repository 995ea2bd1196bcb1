use vstd::prelude::*;

use crate::header::{columns, decimal, error_of, is_reply, length_of, render, HEADER_LEN};
use crate::names::{command_name, is_known_set, set_name};
use crate::relay::{accepted, forward_of, next_phase, report_of, wanted, Phase};

verus! {

/// Every byte read in full is forwarded as it came, and a whole message
/// (header, then its body) reaches the destination exactly as it left the
/// source.
pub proof fn lemma_message_forwarded_verbatim(h: Seq<u8>, body: Seq<u8>, q: Phase)
    requires
        h.len() == HEADER_LEN,
        length_of(h) >= HEADER_LEN,
        body.len() == length_of(h) - HEADER_LEN,
        next_phase(Phase::Header, h, q),
    ensures
        forall|p: Phase, input: Seq<u8>| accepted(p, input) ==> #[trigger] forward_of(p, input) == input,
        length_of(h) == HEADER_LEN ==> forward_of(Phase::Header, h) == h + body,
        length_of(h) > HEADER_LEN ==> forward_of(Phase::Header, h) + forward_of(q, body) == h + body,
{
    if length_of(h) == HEADER_LEN {
        assert(body =~= Seq::<u8>::empty());
        assert(h + body =~= h);
    }
}

/// A header declaring a total length `L` is followed by a read of exactly
/// `L - 11` body bytes, none when `L` is 11; the message is reported once
/// its body is in, and the next read is again a header. A length below 11
/// stops the direction.
pub proof fn lemma_framing(h: Seq<u8>, q: Phase, body: Seq<u8>, after: Phase)
    requires
        h.len() == HEADER_LEN,
        next_phase(Phase::Header, h, q),
        length_of(h) > HEADER_LEN ==> body.len() == length_of(h) - HEADER_LEN && next_phase(q, body, after),
    ensures
        length_of(h) < HEADER_LEN ==> wanted(q) is None,
        length_of(h) == HEADER_LEN ==> wanted(q) == Some(HEADER_LEN as nat) && report_of(Phase::Header, h) == Some(render(h)),
        length_of(h) > HEADER_LEN ==> {
            &&& wanted(q) == Some((length_of(h) - HEADER_LEN) as nat)
            &&& report_of(Phase::Header, h) is None
            &&& report_of(q, body) == Some(render(h))
            &&& after == Phase::Header
        },
{
}

/// Every command-set and command byte has a non-empty name, and a command
/// set with no name of its own gives `Unknown` for the command too; so
/// every header has a non-empty display line.
pub proof fn lemma_classifier_total(command_set: u8, command: u8, h: Seq<u8>)
    requires
        h.len() == HEADER_LEN,
    ensures
        set_name(command_set).len() > 0,
        command_name(command_set, command).len() > 0,
        !is_known_set(command_set) ==> set_name(command_set) == "Unknown"@ && command_name(command_set, command) == "Unknown"@,
        render(h).len() > 0,
{
    reveal_strlit("length = ");
    {
        reveal_strlit("AllClasses");
        reveal_strlit("AllClassesWithGeneric");
        reveal_strlit("AllModules");
        reveal_strlit("AllThreads");
        reveal_strlit("ArrayReference");
        reveal_strlit("ArrayType");
        reveal_strlit("Bytecodes");
        reveal_strlit("Capabilities");
        reveal_strlit("CapabilitiesNew");
        reveal_strlit("Child");
        reveal_strlit("ClassFileVersion");
        reveal_strlit("ClassLoader");
        reveal_strlit("ClassLoaderReference");
        reveal_strlit("ClassObject");
        reveal_strlit("ClassObjectReference");
        reveal_strlit("ClassPaths");
        reveal_strlit("ClassType");
        reveal_strlit("ClassesBySignature");
        reveal_strlit("Clear");
        reveal_strlit("ClearAllBreakpoints");
        reveal_strlit("Composite");
        reveal_strlit("ConstantPool");
        reveal_strlit("CreateString");
        reveal_strlit("CurrentContendedMonitor");
        reveal_strlit("DisableCollection");
        reveal_strlit("Dispose");
        reveal_strlit("DisposeObjects");
        reveal_strlit("EnableCollection");
        reveal_strlit("Event");
        reveal_strlit("EventRequest");
        reveal_strlit("Exit");
        reveal_strlit("Field");
        reveal_strlit("Fields");
        reveal_strlit("FieldsWithGeneric");
        reveal_strlit("ForceEarlyReturn");
        reveal_strlit("FrameCount");
        reveal_strlit("Frames");
        reveal_strlit("GetValues");
        reveal_strlit("HoldEvents");
        reveal_strlit("IDSizes");
        reveal_strlit("InstanceCounts");
        reveal_strlit("Instances");
        reveal_strlit("InterfaceType");
        reveal_strlit("Interfaces");
        reveal_strlit("Interrupt");
        reveal_strlit("InvokeMethod");
        reveal_strlit("IsCollected");
        reveal_strlit("IsObsolete");
        reveal_strlit("IsVirtual");
        reveal_strlit("Length");
        reveal_strlit("LineTable");
        reveal_strlit("Method");
        reveal_strlit("Methods");
        reveal_strlit("MethodsWithGeneric");
        reveal_strlit("Modifiers");
        reveal_strlit("Module");
        reveal_strlit("ModuleReference");
        reveal_strlit("MonitorInfo");
        reveal_strlit("Name");
        reveal_strlit("NestedTypes");
        reveal_strlit("NewInstance");
        reveal_strlit("ObjectReference");
        reveal_strlit("OwnedMonitors");
        reveal_strlit("OwnedMonitorsStackDepthInfo");
        reveal_strlit("Parent");
        reveal_strlit("PopFrames");
        reveal_strlit("RedefineClasses");
        reveal_strlit("ReferenceType");
        reveal_strlit("ReferringObjects");
        reveal_strlit("ReflectedType");
        reveal_strlit("ReleaseEvents");
        reveal_strlit("Resume");
        reveal_strlit("Set");
        reveal_strlit("SetDefaultStratum");
        reveal_strlit("SetValues");
        reveal_strlit("Signature");
        reveal_strlit("SignatureWithGeneric");
        reveal_strlit("SourceDebugExtension");
        reveal_strlit("SourceFile");
        reveal_strlit("StackFrame");
        reveal_strlit("Status");
        reveal_strlit("Stop");
        reveal_strlit("StringReference");
        reveal_strlit("Superclass");
        reveal_strlit("Suspend");
        reveal_strlit("SuspendCount");
        reveal_strlit("ThisObject");
        reveal_strlit("ThreadGroup");
        reveal_strlit("ThreadGroupReference");
        reveal_strlit("ThreadReference");
        reveal_strlit("TopLevelThreadGroups");
        reveal_strlit("Unknown");
        reveal_strlit("Value");
        reveal_strlit("VariableTable");
        reveal_strlit("VariableTableWithGeneric");
        reveal_strlit("Version");
        reveal_strlit("VirtualMachine");
        reveal_strlit("VisibleClasses");
    }
}

/// A header whose flags byte is the reply flag shows an error code; any
/// other flags value shows the command set and command, whatever bytes
/// stand at offsets 9 and 10.
pub proof fn lemma_reply_or_command(h: Seq<u8>)
    requires
        h.len() == HEADER_LEN,
    ensures
        is_reply(h) ==> render(h) == columns(h) + "| error = "@ + decimal(error_of(h)),
        !is_reply(h) ==> render(h) == columns(h) + "| command = "@ + set_name(h[9]) + "."@ + command_name(h[9], h[10]),
{
    assert(is_reply(h) ==> render(h) =~= columns(h) + "| error = "@ + decimal(error_of(h)));
    assert(!is_reply(h) ==> render(h) =~= columns(h) + "| command = "@ + set_name(h[9]) + "."@ + command_name(h[9], h[10]));
}

} // verus!
