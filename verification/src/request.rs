//! The completion request and its serialized JSON body.

use vstd::prelude::*;
use crate::encode::{
    dec_digits, dec_int, escape_char, escape_json, i32_to_decimal, json_escape,
    lemma_json_escape_plain,
    tenths_rep, tenths_to_decimal, u32_to_decimal,
};

verus! {

/// One completion request. The sampling parameters are a fixed policy and
/// are not exposed to the caller of the client; they are kept as fields so
/// that the body text is a function of the value alone. The fractional
/// parameters are counted in tenths, so that the fixed defaults
/// (temperature 0.9, frequency penalty 0.0, presence penalty 0.6) are exact.
pub struct CompletionRequest {
    /// The model that answers the prompt.
    pub model: String,
    /// The prompt text, sent without further transformation.
    pub prompt: String,
    /// Sampling temperature, in tenths.
    pub temperature_tenths: u8,
    /// The caller-supplied bound on generated tokens.
    pub max_tokens: i32,
    /// Nucleus sampling parameter, an integer.
    pub top_p: u8,
    /// Frequency penalty, in tenths.
    pub frequency_penalty_tenths: u8,
    /// Presence penalty, in tenths.
    pub presence_penalty_tenths: u8,
    /// The sequences at which generation stops.
    pub stop: Vec<String>,
}

/// The items of a JSON array of strings: each element quoted and escaped,
/// the elements separated by commas.
pub open spec fn string_array_items(ss: Seq<Seq<char>>) -> Seq<char>
    decreases ss.len(),
{
    if ss.len() == 0 {
        Seq::empty()
    } else {
        let head = seq!['"'] + json_escape(ss[0]) + seq!['"'];
        if ss.len() == 1 {
            head
        } else {
            head + seq![','] + string_array_items(ss.drop_first())
        }
    }
}

/// A JSON array of strings.
pub open spec fn string_array(ss: Seq<Seq<char>>) -> Seq<char> {
    seq!['['] + string_array_items(ss) + seq![']']
}

/// The items of a JSON string array from position `i` on.
fn render_string_array_items(ss: &Vec<String>, i: usize) -> (r: String)
    requires
        i <= ss.len(),
    ensures
        r@ == string_array_items(ss.deep_view().skip(i as int)),
    decreases ss.len() - i,
{
    if i == ss.len() {
        proof {
            assert(ss.deep_view().skip(i as int) =~= Seq::<Seq<char>>::empty());
        }
        String::new()
    } else {
        let mut s = String::from_str("\"");
        let escaped = escape_json(ss[i].as_str());
        s.append(escaped.as_str());
        s.append("\"");
        proof {
            reveal_strlit("\"");
            assert(ss.deep_view().skip(i as int)[0] == ss@[i as int]@);
        }
        if i + 1 == ss.len() {
            proof {
                assert(ss.deep_view().skip(i as int).len() == 1);
                assert(s@ =~= string_array_items(ss.deep_view().skip(i as int)));
            }
            s
        } else {
            s.append(",");
            let rest = render_string_array_items(ss, i + 1);
            s.append(rest.as_str());
            proof {
                reveal_strlit(",");
                assert(ss.deep_view().skip(i as int).drop_first() =~= ss.deep_view().skip(
                    i as int + 1,
                ));
                assert(s@ =~= string_array_items(ss.deep_view().skip(i as int)));
            }
            s
        }
    }
}

/// A vector of strings rendered as a JSON array.
pub fn render_string_array(ss: &Vec<String>) -> (r: String)
    ensures
        r@ == string_array(ss.deep_view()),
{
    let mut s = String::from_str("[");
    let items = render_string_array_items(ss, 0);
    s.append(items.as_str());
    s.append("]");
    proof {
        reveal_strlit("[");
        reveal_strlit("]");
        assert(ss.deep_view().skip(0) =~= ss.deep_view());
        assert(s@ =~= string_array(ss.deep_view()));
    }
    s
}

/// The exact JSON text of a request body: the fields in the order the
/// service expects, the strings escaped, the numbers in decimal.
pub open spec fn body_json(req: CompletionRequest) -> Seq<char> {
    "{\"model\":\""@ + json_escape(req.model@) + "\",\"prompt\":\""@ + json_escape(req.prompt@)
        + "\",\"temperature\":"@ + tenths_rep(req.temperature_tenths as int) + ",\"max_tokens\":"@
        + dec_int(req.max_tokens as int) + ",\"top_p\":"@ + dec_digits(req.top_p as int)
        + ",\"frequency_penalty\":"@ + tenths_rep(req.frequency_penalty_tenths as int)
        + ",\"presence_penalty\":"@ + tenths_rep(req.presence_penalty_tenths as int) + ",\"stop\":"@
        + string_array(req.stop.deep_view()) + "}"@
}

/// The sampling parameters of a request with the fixed defaults appear in
/// its body as the same literal text on every call, whatever the prompt
/// and whatever the token bound: only the escaped prompt and the rendered
/// token bound vary between two such bodies.
pub proof fn lemma_default_body_fixed_fields(req: CompletionRequest)
    requires
        req.model@ == "text-davinci-003"@,
        req.temperature_tenths == 9,
        req.top_p == 1,
        req.frequency_penalty_tenths == 0,
        req.presence_penalty_tenths == 6,
        req.stop@.len() == 1,
        req.stop@[0]@ == "\n"@,
    ensures
        body_json(req) == "{\"model\":\""@ + "text-davinci-003"@ + "\",\"prompt\":\""@
            + json_escape(req.prompt@) + "\",\"temperature\":"@ + "0.9"@ + ",\"max_tokens\":"@
            + dec_int(req.max_tokens as int) + ",\"top_p\":"@ + "1"@ + ",\"frequency_penalty\":"@
            + "0.0"@ + ",\"presence_penalty\":"@ + "0.6"@ + ",\"stop\":"@ + "[\"\\n\"]"@ + "}"@,
{
    reveal_strlit("text-davinci-003");
    reveal_strlit("0.9");
    reveal_strlit("1");
    reveal_strlit("0.0");
    reveal_strlit("0.6");
    reveal_strlit("[\"\\n\"]");
    reveal_strlit("\n");
    assert(forall|i: int|
        0 <= i < "text-davinci-003"@.len() ==> "text-davinci-003"@[i] != '"'
            && "text-davinci-003"@[i] != '\\' && ("text-davinci-003"@[i] as u32) >= 0x20);
    lemma_json_escape_plain("text-davinci-003"@);
    assert(tenths_rep(9) =~= "0.9"@);
    assert(dec_digits(1) =~= "1"@);
    assert(tenths_rep(0) =~= "0.0"@);
    assert(tenths_rep(6) =~= "0.6"@);
    assert(req.stop.deep_view() =~= seq!["\n"@]);
    assert("\n"@ =~= seq!['\n']);
    assert(seq!['\n'].drop_first() =~= Seq::<char>::empty());
    assert(json_escape(Seq::<char>::empty()) =~= Seq::<char>::empty());
    assert(escape_char('\n') =~= seq!['\\', 'n']);
    assert(json_escape("\n"@) =~= escape_char('\n') + json_escape(Seq::<char>::empty()));
    assert(json_escape("\n"@) =~= seq!['\\', 'n']);
    assert(string_array_items(seq!["\n"@]) =~= seq!['"', '\\', 'n', '"']);
    assert(string_array(seq!["\n"@]) =~= "[\"\\n\"]"@);
}

impl CompletionRequest {
    /// A fresh request around a prompt: every sampling parameter takes its
    /// fixed default, and `max_tokens` takes the caller's value unchanged.
    pub fn new(prompt: String, max_tokens: i32) -> (r: CompletionRequest)
        ensures
            r.model@ == "text-davinci-003"@,
            r.prompt == prompt,
            r.temperature_tenths == 9,
            r.max_tokens == max_tokens,
            r.top_p == 1,
            r.frequency_penalty_tenths == 0,
            r.presence_penalty_tenths == 6,
            r.stop@.len() == 1,
            r.stop@[0]@ == "\n"@,
    {
        let mut stop: Vec<String> = Vec::new();
        stop.push(String::from_str("\n"));
        CompletionRequest {
            model: String::from_str("text-davinci-003"),
            prompt,
            temperature_tenths: 9,
            max_tokens,
            top_p: 1,
            frequency_penalty_tenths: 0,
            presence_penalty_tenths: 6,
            stop,
        }
    }

    /// The serialized JSON body of this request.
    pub fn to_json(&self) -> (r: String)
        ensures
            r@ == body_json(*self),
    {
        let mut out = String::from_str("{\"model\":\"");
        let model_escaped = escape_json(self.model.as_str());
        out.append(model_escaped.as_str());
        out.append("\",\"prompt\":\"");
        let prompt_escaped = escape_json(self.prompt.as_str());
        out.append(prompt_escaped.as_str());
        out.append("\",\"temperature\":");
        let temperature = tenths_to_decimal(self.temperature_tenths);
        out.append(temperature.as_str());
        out.append(",\"max_tokens\":");
        let max_tokens = i32_to_decimal(self.max_tokens);
        out.append(max_tokens.as_str());
        out.append(",\"top_p\":");
        let top_p = u32_to_decimal(self.top_p as u32);
        out.append(top_p.as_str());
        out.append(",\"frequency_penalty\":");
        let frequency_penalty = tenths_to_decimal(self.frequency_penalty_tenths);
        out.append(frequency_penalty.as_str());
        out.append(",\"presence_penalty\":");
        let presence_penalty = tenths_to_decimal(self.presence_penalty_tenths);
        out.append(presence_penalty.as_str());
        out.append(",\"stop\":");
        let stop = render_string_array(&self.stop);
        out.append(stop.as_str());
        out.append("}");
        proof {
            assert(out@ =~= body_json(*self));
        }
        out
    }
}

} // verus!
