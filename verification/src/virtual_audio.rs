//! The pair of virtual audio endpoints that the gateway keeps in the audio
//! subsystem: what to load, what was loaded, and what a crashed run left behind.
use vstd::prelude::*;
use vstd::string::*;
use crate::text::{
    chars_of, decimal, find, find_in, lines, lines_of, matches_at, parse_u32, parse_u32_text,
    push_decimal, push_string, push_word, slice_of, split_whitespace, split_whitespace_text,
    starts_with, strings, texts, trim, trim_text,
};

verus! {

/// What a command that was run to its end reported.
#[derive(Debug)]
pub struct CommandOutput {
    /// Whether the command reported success.
    pub success: bool,
    /// What it wrote to its standard output.
    pub stdout: String,
    /// What it wrote to its standard error.
    pub stderr: String,
}

/// The module handle that a load command reported: the number on its standard
/// output, where the command was run and succeeded.
pub open spec fn reported_module(outcome: Option<CommandOutput>) -> Option<u32> {
    match outcome {
        Some(output) => if output.success {
            parse_u32(trim(output.stdout@))
        } else {
            None
        },
        None => None,
    }
}

/// The module handle that a load command reported. `None` for `outcome` says
/// that the command could not be run.
pub fn module_handle(outcome: &Option<CommandOutput>) -> (handle: Option<u32>)
    ensures
        handle == reported_module(*outcome),
{
    match outcome {
        Some(output) => {
            if output.success {
                let out = chars_of(output.stdout.as_str());
                let trimmed = trim_text(&out);
                parse_u32_text(&trimmed)
            } else {
                None
            }
        },
        None => None,
    }
}

/// The virtual endpoints: a sink that carries desktop audio to the viewer and a
/// loopback sink that plays the viewer's microphone, each with the handle of
/// the module that provides it once that module is loaded.
#[derive(Debug)]
pub struct VirtualAudioDevice {
    pub sink_name: String,
    pub sink_description: String,
    pub source_name: String,
    pub source_description: String,
    pub sink_module_id: Option<u32>,
    pub source_module_id: Option<u32>,
}

/// The virtual endpoints as a mathematical value.
pub struct VirtualAudioModel {
    pub sink_name: Seq<char>,
    pub sink_description: Seq<char>,
    pub source_name: Seq<char>,
    pub source_description: Seq<char>,
    pub sink_module_id: Option<u32>,
    pub source_module_id: Option<u32>,
}

impl View for VirtualAudioDevice {
    type V = VirtualAudioModel;

    open spec fn view(&self) -> VirtualAudioModel {
        VirtualAudioModel {
            sink_name: self.sink_name@,
            sink_description: self.sink_description@,
            source_name: self.source_name@,
            source_description: self.source_description@,
            sink_module_id: self.sink_module_id,
            source_module_id: self.source_module_id,
        }
    }
}

impl VirtualAudioModel {
    /// The endpoints under their standard names, with nothing loaded yet.
    pub open spec fn standard() -> VirtualAudioModel {
        VirtualAudioModel {
            sink_name: "desktop_streamer_output"@,
            sink_description: "Desktop Streamer Output (Send to Mobile)"@,
            source_name: "desktop_streamer_input"@,
            source_description: "Desktop Streamer Input (Mobile Microphone)"@,
            sink_module_id: None,
            source_module_id: None,
        }
    }

    /// The source from which the audio sent to the sink can be captured.
    pub open spec fn monitor_source_name(self) -> Seq<char> {
        self.sink_name + ".monitor"@
    }

    /// The sink that plays the viewer's microphone.
    pub open spec fn input_sink_name(self) -> Seq<char> {
        self.source_name + "_loopback"@
    }

    /// The monitor source of the output sink, where that sink was loaded.
    pub open spec fn loaded_monitor(self) -> Option<Seq<char>> {
        if self.sink_module_id is Some {
            Some(self.monitor_source_name())
        } else {
            None
        }
    }

    /// The sink that plays the viewer's microphone, where it was loaded.
    pub open spec fn loaded_input_sink(self) -> Option<Seq<char>> {
        if self.source_module_id is Some {
            Some(self.input_sink_name())
        } else {
            None
        }
    }

    /// The source from which the viewer's microphone can be captured.
    pub open spec fn source_monitor_name(self) -> Seq<char> {
        self.source_name + "_loopback.monitor"@
    }

    /// The arguments that load the output sink.
    pub open spec fn sink_load_arguments(self) -> Seq<Seq<char>> {
        seq![
            "load-module"@,
            "module-null-sink"@,
            "sink_name="@ + self.sink_name,
            "sink_properties=device.description='"@ + self.sink_description + "'"@,
            "rate=48000"@,
            "channels=2"@,
        ]
    }

    /// The arguments that load the microphone loopback sink.
    pub open spec fn source_load_arguments(self) -> Seq<Seq<char>> {
        seq![
            "load-module"@,
            "module-null-sink"@,
            "sink_name="@ + self.source_name + "_loopback"@,
            "sink_properties=device.description='"@ + self.source_description + " Loopback'"@,
            "rate=48000"@,
            "channels=2"@,
        ]
    }

    /// The handles on record, the output sink's first.
    pub open spec fn recorded_handles(self) -> Seq<u32> {
        let sink = match self.sink_module_id {
            Some(id) => seq![id],
            None => Seq::<u32>::empty(),
        };
        match self.source_module_id {
            Some(id) => sink.push(id),
            None => sink,
        }
    }

    /// The record once the two load commands have reported: a handle that was
    /// reported replaces the one on record, and a failed load changes nothing.
    pub open spec fn after_load(
        self,
        sink: Option<CommandOutput>,
        source: Option<CommandOutput>,
    ) -> VirtualAudioModel {
        VirtualAudioModel {
            sink_module_id: match reported_module(sink) {
                Some(id) => Some(id),
                None => self.sink_module_id,
            },
            source_module_id: match reported_module(source) {
                Some(id) => Some(id),
                None => self.source_module_id,
            },
            ..self
        }
    }
}

/// The standard names begin with the prefix by which a sweep finds them.
pub proof fn lemma_standard_is_namespaced()
    ensures
        VirtualAudioModel::standard().namespaced(),
{
    reveal_strlit("desktop_streamer_");
    reveal_strlit("desktop_streamer_output");
    reveal_strlit("desktop_streamer_input");
    let prefix = endpoint_prefix();
    let output = "desktop_streamer_output"@;
    let input = "desktop_streamer_input"@;
    assert(output.subrange(0, prefix.len() as int) =~= prefix);
    assert(input.subrange(0, prefix.len() as int) =~= prefix);
}

/// The arguments that unload the module with handle `module_id`.
pub open spec fn unload_arguments(module_id: u32) -> Seq<Seq<char>> {
    seq!["unload-module"@, decimal(module_id as nat)]
}

impl VirtualAudioDevice {
    /// The endpoints under their standard names, with nothing loaded yet.
    pub fn new() -> (device: Self)
        ensures
            device@ == VirtualAudioModel::standard(),
            device@.namespaced(),
    {
        proof {
            lemma_standard_is_namespaced();
        }
        VirtualAudioDevice {
            sink_name: String::from_str("desktop_streamer_output"),
            sink_description: String::from_str("Desktop Streamer Output (Send to Mobile)"),
            source_name: String::from_str("desktop_streamer_input"),
            source_description: String::from_str("Desktop Streamer Input (Mobile Microphone)"),
            sink_module_id: None,
            source_module_id: None,
        }
    }

    /// The arguments of the command that loads the output sink.
    pub fn sink_load_arguments(&self) -> (arguments: Vec<String>)
        ensures
            strings(arguments@) == self@.sink_load_arguments(),
    {
        let mut arguments: Vec<String> = Vec::new();
        push_word(&mut arguments, "load-module");
        push_word(&mut arguments, "module-null-sink");
        let mut name = String::from_str("sink_name=");
        name.append(self.sink_name.as_str());
        push_string(&mut arguments, name);
        let mut properties = String::from_str("sink_properties=device.description='");
        properties.append(self.sink_description.as_str());
        properties.append("'");
        push_string(&mut arguments, properties);
        push_word(&mut arguments, "rate=48000");
        push_word(&mut arguments, "channels=2");
        assert(strings(arguments@) =~= self@.sink_load_arguments());
        arguments
    }

    /// The arguments of the command that loads the microphone loopback sink.
    pub fn source_load_arguments(&self) -> (arguments: Vec<String>)
        ensures
            strings(arguments@) == self@.source_load_arguments(),
    {
        let mut arguments: Vec<String> = Vec::new();
        push_word(&mut arguments, "load-module");
        push_word(&mut arguments, "module-null-sink");
        let mut name = String::from_str("sink_name=");
        name.append(self.source_name.as_str());
        name.append("_loopback");
        push_string(&mut arguments, name);
        let mut properties = String::from_str("sink_properties=device.description='");
        properties.append(self.source_description.as_str());
        properties.append(" Loopback'");
        push_string(&mut arguments, properties);
        push_word(&mut arguments, "rate=48000");
        push_word(&mut arguments, "channels=2");
        assert(strings(arguments@) =~= self@.source_load_arguments());
        arguments
    }

    /// Records what the two load commands reported, `sink` for the output sink
    /// and `source` for the microphone loopback. `None` says that the command
    /// could not be run. A load that failed leaves its endpoint as it was.
    pub fn create_virtual_devices(
        &mut self,
        sink: &Option<CommandOutput>,
        source: &Option<CommandOutput>,
    )
        ensures
            final(self)@ == old(self)@.after_load(*sink, *source),
    {
        match module_handle(sink) {
            Some(id) => {
                self.sink_module_id = Some(id);
            },
            None => {},
        }
        match module_handle(source) {
            Some(id) => {
                self.source_module_id = Some(id);
            },
            None => {},
        }
    }

    /// The handles of the modules to unload, the output sink's first. Each is
    /// to be unloaded whatever becomes of the others.
    pub fn remove_virtual_devices(&self) -> (handles: Vec<u32>)
        ensures
            handles@ == self@.recorded_handles(),
    {
        let mut handles: Vec<u32> = Vec::new();
        match self.sink_module_id {
            Some(id) => {
                handles.push(id);
            },
            None => {},
        }
        match self.source_module_id {
            Some(id) => {
                handles.push(id);
            },
            None => {},
        }
        assert(handles@ =~= self@.recorded_handles());
        handles
    }

    /// The arguments of the command that unloads the module `module_id`.
    pub fn remove_module(module_id: u32) -> (arguments: Vec<String>)
        ensures
            strings(arguments@) == unload_arguments(module_id),
    {
        let mut arguments: Vec<String> = Vec::new();
        push_word(&mut arguments, "unload-module");
        let mut id = String::new();
        push_decimal(&mut id, module_id as u64);
        assert(id@ =~= decimal(module_id as nat));
        push_string(&mut arguments, id);
        assert(strings(arguments@) =~= unload_arguments(module_id));
        arguments
    }

    /// The source from which the audio sent to the output sink can be captured.
    pub fn get_monitor_source_name(&self) -> (name: String)
        ensures
            name@ == self@.monitor_source_name(),
    {
        let mut name = self.sink_name.clone();
        name.append(".monitor");
        name
    }

    /// The source from which the viewer's microphone can be captured.
    pub fn get_source_name(&self) -> (name: String)
        ensures
            name@ == self@.source_monitor_name(),
    {
        let mut name = self.source_name.clone();
        name.append("_loopback.monitor");
        name
    }

    /// The sink to which the desktop sends what the viewer is to hear.
    pub fn get_sink_name(&self) -> (name: String)
        ensures
            name@ == self@.sink_name,
    {
        self.sink_name.clone()
    }

    /// The sink that plays the viewer's microphone.
    pub fn get_input_sink_name(&self) -> (name: String)
        ensures
            name@ == self@.input_sink_name(),
    {
        let mut name = self.source_name.clone();
        name.append("_loopback");
        name
    }
}

/// The prefix that the name of every virtual endpoint begins with.
pub open spec fn endpoint_prefix() -> Seq<char> {
    "desktop_streamer_"@
}

/// What an argument gives as its value: what follows its first `=`, or all of
/// it where it has none.
pub open spec fn argument_value(argument: Seq<char>) -> Seq<char> {
    match find(argument, "="@) {
        Some(i) => argument.skip(i + 1),
        None => argument,
    }
}

/// The argument names a virtual endpoint: its value begins with the prefix.
pub open spec fn names_virtual_endpoint(argument: Seq<char>) -> bool {
    starts_with(argument_value(argument), endpoint_prefix())
}

/// One of the arguments on a module line, its fields from the third on, names
/// a virtual endpoint.
pub open spec fn mentions_virtual_endpoint(fields: Seq<Seq<char>>) -> bool {
    exists|k: int| 2 <= k < fields.len() && names_virtual_endpoint(#[trigger] fields[k])
}

/// The handle of the module that a line of a module listing describes, if one
/// of its arguments names a virtual endpoint and its handle can be read. The
/// fields of a line are its words: the handle, the kind of module, and the
/// arguments. Who loaded the module, and of what kind it is, does not matter.
pub open spec fn orphan_handle(line: Seq<char>) -> Option<u32> {
    let fields = split_whitespace(line);
    if mentions_virtual_endpoint(fields) {
        parse_u32(fields[0])
    } else {
        None
    }
}

/// The handles of the modules to unload, in the order of the listing: one for
/// each line whose module is to be unloaded.
pub open spec fn orphan_handles(listing: Seq<char>) -> Seq<u32> {
    lines(listing).filter_map(|line: Seq<char>| orphan_handle(line))
}

/// A module whose handle can be read already has a sink by the name
/// `sink_name`.
pub open spec fn collides(line: Seq<char>, sink_name: Seq<char>) -> bool {
    let fields = split_whitespace(line);
    &&& parse_u32(fields[0]) is Some
    &&& exists|k: int| 2 <= k < fields.len() && #[trigger] fields[k] == "sink_name="@ + sink_name
}

impl VirtualAudioModel {
    /// Both endpoint names begin with the prefix by which a sweep finds them.
    pub open spec fn namespaced(self) -> bool {
        starts_with(self.sink_name, endpoint_prefix()) && starts_with(
            self.source_name,
            endpoint_prefix(),
        )
    }
}

/// Whether the argument names a virtual endpoint.
fn argument_names_endpoint(argument: &Vec<char>) -> (yes: bool)
    ensures
        yes == names_virtual_endpoint(argument@),
{
    let equals = chars_of("=");
    let prefix = chars_of("desktop_streamer_");
    match find_in(argument, &equals) {
        Some(i) => {
            proof {
                reveal_strlit("=");
            }
            assert(crate::text::occurs_at(argument@, equals@, i as int));
            let total = argument.len();
            let value = slice_of(argument, i + 1, total);
            assert(value@ =~= argument@.skip(i + 1));
            matches_at(&value, &prefix, 0)
        },
        None => matches_at(argument, &prefix, 0),
    }
}

impl VirtualAudioDevice {
    /// The handles of the modules that an earlier run left behind, read off
    /// `listing`, the short listing of the loaded modules. Each is to be
    /// unloaded whatever becomes of the others.
    pub fn remove_all_orphan_devices(listing: &str) -> (handles: Vec<u32>)
        ensures
            handles@ == orphan_handles(listing@),
    {
        let text = chars_of(listing);
        let all = lines_of(&text);
        let ghost pick = |line: Seq<char>| orphan_handle(line);
        let mut handles: Vec<u32> = Vec::new();
        let mut i: usize = 0;
        assert(texts(all@).take(0).filter_map(pick) =~= Seq::<u32>::empty());
        while i < all.len()
            invariant
                i <= all.len(),
                texts(all@) == lines(listing@),
                pick == (|line: Seq<char>| orphan_handle(line)),
                handles@ == texts(all@).take(i as int).filter_map(pick),
            decreases all.len() - i,
        {
            proof {
                texts(all@).lemma_filter_map_take_succ(pick, i as int);
            }
            let fields = split_whitespace_text(&all[i]);
            let mut found = false;
            let mut k: usize = 2;
            while k < fields.len() && !found
                invariant
                    2 <= k,
                    found ==> mentions_virtual_endpoint(texts(fields@)),
                    !found ==> forall|j: int|
                        2 <= j < k && j < fields.len() ==> !names_virtual_endpoint(
                            #[trigger] texts(fields@)[j],
                        ),
                decreases fields.len() - k + if found { 0int } else { 1int },
            {
                if argument_names_endpoint(&fields[k]) {
                    assert(texts(fields@)[k as int] == fields@[k as int]@);
                    found = true;
                } else {
                    assert(texts(fields@)[k as int] == fields@[k as int]@);
                    k += 1;
                }
            }
            if found {
                assert(texts(fields@)[0] == fields@[0]@);
                match parse_u32_text(&fields[0]) {
                    Some(id) => {
                        handles.push(id);
                    },
                    None => {},
                }
            }
            i += 1;
        }
        assert(texts(all@).take(all.len() as int) =~= texts(all@));
        handles
    }
}

/// Where a choice yields nothing for any item, it yields nothing for the list,
/// and the other way round.
pub proof fn lemma_filter_map_empty<A, B>(s: Seq<A>, f: spec_fn(A) -> Option<B>)
    ensures
        s.filter_map(f).len() == 0 <==> forall|i: int| 0 <= i < s.len() ==> f(#[trigger] s[i]) is None,
    decreases s.len(),
{
    if s.len() > 0 {
        lemma_filter_map_empty(s.drop_last(), f);
        if s.filter_map(f).len() == 0 {
            assert forall|i: int| 0 <= i < s.len() implies f(#[trigger] s[i]) is None by {
                if i < s.len() - 1 {
                    assert(s.drop_last()[i] == s[i]);
                }
            }
        } else {
            if forall|i: int| 0 <= i < s.len() ==> f(#[trigger] s[i]) is None {
                assert forall|i: int| 0 <= i < s.drop_last().len() implies f(
                    #[trigger] s.drop_last()[i],
                ) is None by {
                    assert(s.drop_last()[i] == s[i]);
                }
                assert(f(s[s.len() - 1]) is None);
            }
        }
    }
}

/// A second sweep right after a first one finds nothing: where the modules that
/// the first sweep names are gone from the listing and every other line is
/// still there, the listing names no module to unload.
pub proof fn lemma_second_sweep_removes_nothing(before: Seq<char>, after: Seq<char>)
    requires
        lines(after) == lines(before).filter(|line: Seq<char>| orphan_handle(line) is None),
    ensures
        orphan_handles(after) == Seq::<u32>::empty(),
{
    let kept = |line: Seq<char>| orphan_handle(line) is None;
    let pick = |line: Seq<char>| orphan_handle(line);
    assert forall|i: int| 0 <= i < lines(after).len() implies pick(#[trigger] lines(after)[i])
        is None by {
        lines(before).lemma_filter_pred(kept, i);
    }
    lemma_filter_map_empty(lines(after), pick);
    assert(orphan_handles(after) =~= Seq::<u32>::empty());
}

/// The value of the argument `sink_name=` followed by a name is that name.
proof fn lemma_sink_name_value(name: Seq<char>)
    ensures
        argument_value("sink_name="@ + name) == name,
{
    reveal_strlit("sink_name=");
    reveal_strlit("=");
    let key = "sink_name="@;
    let word = key + name;
    let mark = "="@;
    assert(word.subrange(9, 10) =~= mark);
    assert forall|j: int| 0 <= j < 9 implies !crate::text::occurs_at(word, mark, j) by {
        if crate::text::occurs_at(word, mark, j) {
            assert(word.subrange(j, j + 1)[0] == mark[0]);
            assert(word[j] == key[j]);
        }
    }
    assert(crate::text::is_first_occurrence(word, mark, 9));
    crate::text::lemma_find_is_first(word, mark, 9);
    assert(word.skip(10) =~= name);
}

/// After a sweep that left nothing to unload, the names of the virtual
/// endpoints are free: no module in the listing whose handle can be read has a
/// sink by the name of the output sink or of the microphone loopback sink.
pub proof fn lemma_no_name_collision_after_sweep(listing: Seq<char>, device: VirtualAudioModel)
    requires
        orphan_handles(listing).len() == 0,
        device.namespaced(),
    ensures
        forall|i: int|
            0 <= i < lines(listing).len() ==> !collides(
                #[trigger] lines(listing)[i],
                device.sink_name,
            ) && !collides(lines(listing)[i], device.input_sink_name()),
{
    let pick = |line: Seq<char>| orphan_handle(line);
    lemma_filter_map_empty(lines(listing), pick);
    let prefix = endpoint_prefix();
    lemma_sink_name_value(device.sink_name);
    lemma_sink_name_value(device.input_sink_name());
    assert(starts_with(device.input_sink_name(), prefix)) by {
        assert(device.source_name.subrange(0, prefix.len() as int) == prefix);
        assert(device.input_sink_name().subrange(0, prefix.len() as int)
            =~= device.source_name.subrange(0, prefix.len() as int));
    }
    assert forall|i: int| 0 <= i < lines(listing).len() implies !collides(
        #[trigger] lines(listing)[i],
        device.sink_name,
    ) && !collides(lines(listing)[i], device.input_sink_name()) by {
        let line = lines(listing)[i];
        let fields = split_whitespace(line);
        assert(pick(line) is None);
        if collides(line, device.sink_name) {
            let k = choose|k: int|
                2 <= k < fields.len() && #[trigger] fields[k] == "sink_name="@ + device.sink_name;
            assert(names_virtual_endpoint(fields[k]));
        }
        if collides(line, device.input_sink_name()) {
            let k = choose|k: int|
                2 <= k < fields.len() && #[trigger] fields[k] == "sink_name="@
                    + device.input_sink_name();
            assert(names_virtual_endpoint(fields[k]));
        }
    }
}

} // verus!
