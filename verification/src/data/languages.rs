use crate::text::str_eq;
use crate::types::Language;
use vstd::prelude::*;
use vstd::string::*;

verus! {

// == The word lists ==

fn code_go_words() -> Vec<String> {
    let mut v: Vec<String> = Vec::new();
    v.push("func".to_owned());
    v.push("package".to_owned());
    v.push("import".to_owned());
    v.push("var".to_owned());
    v.push("const".to_owned());
    v.push("type".to_owned());
    v.push("struct".to_owned());
    v.push("interface".to_owned());
    v.push("map".to_owned());
    v.push("chan".to_owned());
    v.push("go".to_owned());
    v.push("defer".to_owned());
    v.push("return".to_owned());
    v.push("if".to_owned());
    v.push("else".to_owned());
    v.push("for".to_owned());
    v.push("range".to_owned());
    v.push("switch".to_owned());
    v.push("case".to_owned());
    v.push("default".to_owned());
    v.push("break".to_owned());
    v.push("continue".to_owned());
    v.push("goto".to_owned());
    v.push("fallthrough".to_owned());
    v.push("select".to_owned());
    v.push("nil".to_owned());
    v.push("true".to_owned());
    v.push("false".to_owned());
    v.push("int".to_owned());
    v.push("int8".to_owned());
    v.push("int16".to_owned());
    v.push("int32".to_owned());
    v.push("int64".to_owned());
    v.push("uint".to_owned());
    v.push("uint8".to_owned());
    v.push("uint16".to_owned());
    v.push("uint32".to_owned());
    v.push("uint64".to_owned());
    v.push("float32".to_owned());
    v.push("float64".to_owned());
    v.push("string".to_owned());
    v.push("bool".to_owned());
    v.push("byte".to_owned());
    v.push("rune".to_owned());
    v.push("error".to_owned());
    v.push("make".to_owned());
    v.push("new".to_owned());
    v.push("len".to_owned());
    v.push("cap".to_owned());
    v.push("append".to_owned());
    v.push("copy".to_owned());
    v.push("delete".to_owned());
    v.push("panic".to_owned());
    v.push("recover".to_owned());
    v.push("print".to_owned());
    v.push("println".to_owned());
    v.push("fmt".to_owned());
    v.push("errors".to_owned());
    v.push("strings".to_owned());
    v.push("strconv".to_owned());
    v.push("time".to_owned());
    v.push("context".to_owned());
    v.push("sync".to_owned());
    v.push("atomic".to_owned());
    v.push("channel".to_owned());
    v.push("buffer".to_owned());
    v.push("reader".to_owned());
    v.push("writer".to_owned());
    v.push("client".to_owned());
    v.push("server".to_owned());
    v.push("handler".to_owned());
    v.push("request".to_owned());
    v.push("response".to_owned());
    v.push("header".to_owned());
    v.push("method".to_owned());
    v.push("status".to_owned());
    v.push("err".to_owned());
    v.push("value".to_owned());
    v.push("key".to_owned());
    v.push("index".to_owned());
    v.push("slice".to_owned());
    v.push("array".to_owned());
    v.push("pointer".to_owned());
    v.push("receiver".to_owned());
    v.push("embed".to_owned());
    v.push("goroutine".to_owned());
    v.push("mutex".to_owned());
    v.push("waitgroup".to_owned());
    v.push("ticker".to_owned());
    v.push("timer".to_owned());
    v.push("signal".to_owned());
    v.push("flag".to_owned());
    v.push("main".to_owned());
    v.push("init".to_owned());
    v.push("test".to_owned());
    v.push("bench".to_owned());
    v
}

fn code_javascript_words() -> Vec<String> {
    let mut v: Vec<String> = Vec::new();
    v.push("function".to_owned());
    v.push("const".to_owned());
    v.push("let".to_owned());
    v.push("var".to_owned());
    v.push("return".to_owned());
    v.push("if".to_owned());
    v.push("else".to_owned());
    v.push("for".to_owned());
    v.push("while".to_owned());
    v.push("do".to_owned());
    v.push("switch".to_owned());
    v.push("case".to_owned());
    v.push("default".to_owned());
    v.push("break".to_owned());
    v.push("continue".to_owned());
    v.push("class".to_owned());
    v.push("extends".to_owned());
    v.push("super".to_owned());
    v.push("this".to_owned());
    v.push("new".to_owned());
    v.push("typeof".to_owned());
    v.push("instanceof".to_owned());
    v.push("delete".to_owned());
    v.push("void".to_owned());
    v.push("in".to_owned());
    v.push("of".to_owned());
    v.push("try".to_owned());
    v.push("catch".to_owned());
    v.push("finally".to_owned());
    v.push("throw".to_owned());
    v.push("async".to_owned());
    v.push("await".to_owned());
    v.push("yield".to_owned());
    v.push("import".to_owned());
    v.push("export".to_owned());
    v.push("from".to_owned());
    v.push("as".to_owned());
    v.push("null".to_owned());
    v.push("undefined".to_owned());
    v.push("true".to_owned());
    v.push("false".to_owned());
    v.push("console".to_owned());
    v.push("log".to_owned());
    v.push("error".to_owned());
    v.push("warn".to_owned());
    v.push("document".to_owned());
    v.push("window".to_owned());
    v.push("event".to_owned());
    v.push("listener".to_owned());
    v.push("callback".to_owned());
    v.push("promise".to_owned());
    v.push("resolve".to_owned());
    v.push("reject".to_owned());
    v.push("then".to_owned());
    v.push("fetch".to_owned());
    v.push("response".to_owned());
    v.push("json".to_owned());
    v.push("string".to_owned());
    v.push("number".to_owned());
    v.push("boolean".to_owned());
    v.push("object".to_owned());
    v.push("array".to_owned());
    v.push("map".to_owned());
    v.push("set".to_owned());
    v.push("filter".to_owned());
    v.push("reduce".to_owned());
    v.push("forEach".to_owned());
    v.push("push".to_owned());
    v.push("pop".to_owned());
    v.push("shift".to_owned());
    v.push("unshift".to_owned());
    v.push("slice".to_owned());
    v.push("splice".to_owned());
    v.push("concat".to_owned());
    v.push("join".to_owned());
    v.push("split".to_owned());
    v.push("length".to_owned());
    v.push("index".to_owned());
    v.push("value".to_owned());
    v.push("key".to_owned());
    v.push("prototype".to_owned());
    v.push("constructor".to_owned());
    v.push("module".to_owned());
    v.push("require".to_owned());
    v.push("exports".to_owned());
    v.push("arguments".to_owned());
    v.push("closure".to_owned());
    v.push("scope".to_owned());
    v.push("hoisting".to_owned());
    v.push("strict".to_owned());
    v.push("template".to_owned());
    v.push("literal".to_owned());
    v.push("spread".to_owned());
    v.push("rest".to_owned());
    v.push("destructuring".to_owned());
    v.push("arrow".to_owned());
    v.push("bind".to_owned());
    v.push("call".to_owned());
    v.push("apply".to_owned());
    v.push("getter".to_owned());
    v.push("setter".to_owned());
    v.push("symbol".to_owned());
    v.push("iterator".to_owned());
    v.push("generator".to_owned());
    v.push("timeout".to_owned());
    v.push("interval".to_owned());
    v
}

fn code_python_words() -> Vec<String> {
    let mut v: Vec<String> = Vec::new();
    v.push("def".to_owned());
    v.push("class".to_owned());
    v.push("return".to_owned());
    v.push("if".to_owned());
    v.push("elif".to_owned());
    v.push("else".to_owned());
    v.push("for".to_owned());
    v.push("while".to_owned());
    v.push("break".to_owned());
    v.push("continue".to_owned());
    v.push("pass".to_owned());
    v.push("import".to_owned());
    v.push("from".to_owned());
    v.push("as".to_owned());
    v.push("with".to_owned());
    v.push("try".to_owned());
    v.push("except".to_owned());
    v.push("finally".to_owned());
    v.push("raise".to_owned());
    v.push("assert".to_owned());
    v.push("lambda".to_owned());
    v.push("yield".to_owned());
    v.push("global".to_owned());
    v.push("nonlocal".to_owned());
    v.push("del".to_owned());
    v.push("not".to_owned());
    v.push("and".to_owned());
    v.push("or".to_owned());
    v.push("in".to_owned());
    v.push("is".to_owned());
    v.push("None".to_owned());
    v.push("True".to_owned());
    v.push("False".to_owned());
    v.push("self".to_owned());
    v.push("cls".to_owned());
    v.push("init".to_owned());
    v.push("str".to_owned());
    v.push("int".to_owned());
    v.push("float".to_owned());
    v.push("bool".to_owned());
    v.push("list".to_owned());
    v.push("dict".to_owned());
    v.push("set".to_owned());
    v.push("tuple".to_owned());
    v.push("range".to_owned());
    v.push("len".to_owned());
    v.push("print".to_owned());
    v.push("input".to_owned());
    v.push("open".to_owned());
    v.push("read".to_owned());
    v.push("write".to_owned());
    v.push("append".to_owned());
    v.push("extend".to_owned());
    v.push("insert".to_owned());
    v.push("remove".to_owned());
    v.push("pop".to_owned());
    v.push("clear".to_owned());
    v.push("sort".to_owned());
    v.push("sorted".to_owned());
    v.push("reversed".to_owned());
    v.push("enumerate".to_owned());
    v.push("zip".to_owned());
    v.push("map".to_owned());
    v.push("filter".to_owned());
    v.push("sum".to_owned());
    v.push("min".to_owned());
    v.push("max".to_owned());
    v.push("abs".to_owned());
    v.push("round".to_owned());
    v.push("isinstance".to_owned());
    v.push("issubclass".to_owned());
    v.push("super".to_owned());
    v.push("property".to_owned());
    v.push("staticmethod".to_owned());
    v.push("classmethod".to_owned());
    v.push("decorator".to_owned());
    v.push("generator".to_owned());
    v.push("iterator".to_owned());
    v.push("comprehension".to_owned());
    v.push("module".to_owned());
    v.push("package".to_owned());
    v.push("namespace".to_owned());
    v.push("exception".to_owned());
    v.push("traceback".to_owned());
    v.push("args".to_owned());
    v.push("kwargs".to_owned());
    v.push("main".to_owned());
    v.push("name".to_owned());
    v.push("file".to_owned());
    v.push("path".to_owned());
    v.push("json".to_owned());
    v.push("math".to_owned());
    v.push("random".to_owned());
    v.push("datetime".to_owned());
    v.push("collections".to_owned());
    v.push("itertools".to_owned());
    v.push("functools".to_owned());
    v.push("typing".to_owned());
    v.push("async".to_owned());
    v.push("await".to_owned());
    v
}

fn code_rust_words() -> Vec<String> {
    let mut v: Vec<String> = Vec::new();
    v.push("fn".to_owned());
    v.push("let".to_owned());
    v.push("mut".to_owned());
    v.push("const".to_owned());
    v.push("static".to_owned());
    v.push("struct".to_owned());
    v.push("enum".to_owned());
    v.push("trait".to_owned());
    v.push("impl".to_owned());
    v.push("for".to_owned());
    v.push("while".to_owned());
    v.push("loop".to_owned());
    v.push("if".to_owned());
    v.push("else".to_owned());
    v.push("match".to_owned());
    v.push("return".to_owned());
    v.push("break".to_owned());
    v.push("continue".to_owned());
    v.push("pub".to_owned());
    v.push("use".to_owned());
    v.push("mod".to_owned());
    v.push("crate".to_owned());
    v.push("super".to_owned());
    v.push("self".to_owned());
    v.push("where".to_owned());
    v.push("type".to_owned());
    v.push("dyn".to_owned());
    v.push("ref".to_owned());
    v.push("move".to_owned());
    v.push("async".to_owned());
    v.push("await".to_owned());
    v.push("unsafe".to_owned());
    v.push("extern".to_owned());
    v.push("box".to_owned());
    v.push("vec".to_owned());
    v.push("string".to_owned());
    v.push("str".to_owned());
    v.push("slice".to_owned());
    v.push("option".to_owned());
    v.push("some".to_owned());
    v.push("none".to_owned());
    v.push("result".to_owned());
    v.push("ok".to_owned());
    v.push("err".to_owned());
    v.push("panic".to_owned());
    v.push("unwrap".to_owned());
    v.push("expect".to_owned());
    v.push("clone".to_owned());
    v.push("copy".to_owned());
    v.push("debug".to_owned());
    v.push("display".to_owned());
    v.push("default".to_owned());
    v.push("from".to_owned());
    v.push("into".to_owned());
    v.push("iterator".to_owned());
    v.push("collect".to_owned());
    v.push("map".to_owned());
    v.push("filter".to_owned());
    v.push("fold".to_owned());
    v.push("push".to_owned());
    v.push("pop".to_owned());
    v.push("insert".to_owned());
    v.push("remove".to_owned());
    v.push("contains".to_owned());
    v.push("len".to_owned());
    v.push("capacity".to_owned());
    v.push("borrow".to_owned());
    v.push("lifetime".to_owned());
    v.push("ownership".to_owned());
    v.push("reference".to_owned());
    v.push("pointer".to_owned());
    v.push("heap".to_owned());
    v.push("stack".to_owned());
    v.push("thread".to_owned());
    v.push("spawn".to_owned());
    v.push("channel".to_owned());
    v.push("sender".to_owned());
    v.push("receiver".to_owned());
    v.push("mutex".to_owned());
    v.push("arc".to_owned());
    v.push("rc".to_owned());
    v.push("cell".to_owned());
    v.push("refcell".to_owned());
    v.push("closure".to_owned());
    v.push("generic".to_owned());
    v.push("bound".to_owned());
    v.push("derive".to_owned());
    v.push("macro".to_owned());
    v.push("attribute".to_owned());
    v.push("module".to_owned());
    v.push("cargo".to_owned());
    v.push("test".to_owned());
    v.push("bench".to_owned());
    v.push("main".to_owned());
    v.push("println".to_owned());
    v.push("format".to_owned());
    v.push("hash".to_owned());
    v.push("eq".to_owned());
    v.push("ord".to_owned());
    v.push("partial".to_owned());
    v
}

fn code_typescript_words() -> Vec<String> {
    let mut v: Vec<String> = Vec::new();
    v.push("interface".to_owned());
    v.push("type".to_owned());
    v.push("extends".to_owned());
    v.push("implements".to_owned());
    v.push("function".to_owned());
    v.push("const".to_owned());
    v.push("let".to_owned());
    v.push("var".to_owned());
    v.push("return".to_owned());
    v.push("if".to_owned());
    v.push("else".to_owned());
    v.push("for".to_owned());
    v.push("while".to_owned());
    v.push("do".to_owned());
    v.push("switch".to_owned());
    v.push("case".to_owned());
    v.push("default".to_owned());
    v.push("break".to_owned());
    v.push("continue".to_owned());
    v.push("class".to_owned());
    v.push("abstract".to_owned());
    v.push("public".to_owned());
    v.push("private".to_owned());
    v.push("protected".to_owned());
    v.push("readonly".to_owned());
    v.push("static".to_owned());
    v.push("this".to_owned());
    v.push("new".to_owned());
    v.push("typeof".to_owned());
    v.push("keyof".to_owned());
    v.push("instanceof".to_owned());
    v.push("in".to_owned());
    v.push("of".to_owned());
    v.push("as".to_owned());
    v.push("is".to_owned());
    v.push("asserts".to_owned());
    v.push("declare".to_owned());
    v.push("namespace".to_owned());
    v.push("module".to_owned());
    v.push("import".to_owned());
    v.push("export".to_owned());
    v.push("from".to_owned());
    v.push("null".to_owned());
    v.push("undefined".to_owned());
    v.push("never".to_owned());
    v.push("unknown".to_owned());
    v.push("any".to_owned());
    v.push("void".to_owned());
    v.push("string".to_owned());
    v.push("number".to_owned());
    v.push("boolean".to_owned());
    v.push("object".to_owned());
    v.push("symbol".to_owned());
    v.push("bigint".to_owned());
    v.push("array".to_owned());
    v.push("tuple".to_owned());
    v.push("enum".to_owned());
    v.push("union".to_owned());
    v.push("intersection".to_owned());
    v.push("generic".to_owned());
    v.push("constraint".to_owned());
    v.push("infer".to_owned());
    v.push("conditional".to_owned());
    v.push("mapped".to_owned());
    v.push("template".to_owned());
    v.push("literal".to_owned());
    v.push("satisfies".to_owned());
    v.push("override".to_owned());
    v.push("accessor".to_owned());
    v.push("decorator".to_owned());
    v.push("promise".to_owned());
    v.push("async".to_owned());
    v.push("await".to_owned());
    v.push("partial".to_owned());
    v.push("required".to_owned());
    v.push("pick".to_owned());
    v.push("omit".to_owned());
    v.push("record".to_owned());
    v.push("exclude".to_owned());
    v.push("extract".to_owned());
    v.push("parameters".to_owned());
    v.push("constructor".to_owned());
    v.push("instance".to_owned());
    v.push("index".to_owned());
    v.push("signature".to_owned());
    v.push("optional".to_owned());
    v.push("nullable".to_owned());
    v.push("strict".to_owned());
    v.push("callable".to_owned());
    v.push("predicate".to_owned());
    v.push("guard".to_owned());
    v.push("assertion".to_owned());
    v.push("narrow".to_owned());
    v.push("widen".to_owned());
    v
}

fn english_words() -> Vec<String> {
    let mut v: Vec<String> = Vec::new();
    v.push("the".to_owned());
    v.push("be".to_owned());
    v.push("of".to_owned());
    v.push("and".to_owned());
    v.push("a".to_owned());
    v.push("to".to_owned());
    v.push("in".to_owned());
    v.push("he".to_owned());
    v.push("have".to_owned());
    v.push("it".to_owned());
    v.push("that".to_owned());
    v.push("for".to_owned());
    v.push("they".to_owned());
    v.push("i".to_owned());
    v.push("with".to_owned());
    v.push("as".to_owned());
    v.push("not".to_owned());
    v.push("on".to_owned());
    v.push("she".to_owned());
    v.push("at".to_owned());
    v.push("by".to_owned());
    v.push("this".to_owned());
    v.push("we".to_owned());
    v.push("you".to_owned());
    v.push("do".to_owned());
    v.push("but".to_owned());
    v.push("from".to_owned());
    v.push("or".to_owned());
    v.push("which".to_owned());
    v.push("one".to_owned());
    v.push("would".to_owned());
    v.push("all".to_owned());
    v.push("will".to_owned());
    v.push("there".to_owned());
    v.push("say".to_owned());
    v.push("who".to_owned());
    v.push("make".to_owned());
    v.push("when".to_owned());
    v.push("can".to_owned());
    v.push("more".to_owned());
    v.push("if".to_owned());
    v.push("no".to_owned());
    v.push("man".to_owned());
    v.push("out".to_owned());
    v.push("other".to_owned());
    v.push("so".to_owned());
    v.push("what".to_owned());
    v.push("time".to_owned());
    v.push("up".to_owned());
    v.push("go".to_owned());
    v.push("about".to_owned());
    v.push("than".to_owned());
    v.push("into".to_owned());
    v.push("could".to_owned());
    v.push("state".to_owned());
    v.push("only".to_owned());
    v.push("new".to_owned());
    v.push("year".to_owned());
    v.push("some".to_owned());
    v.push("take".to_owned());
    v.push("come".to_owned());
    v.push("these".to_owned());
    v.push("know".to_owned());
    v.push("see".to_owned());
    v.push("use".to_owned());
    v.push("get".to_owned());
    v.push("like".to_owned());
    v.push("then".to_owned());
    v.push("first".to_owned());
    v.push("any".to_owned());
    v.push("work".to_owned());
    v.push("now".to_owned());
    v.push("may".to_owned());
    v.push("such".to_owned());
    v.push("give".to_owned());
    v.push("over".to_owned());
    v.push("think".to_owned());
    v.push("most".to_owned());
    v.push("even".to_owned());
    v.push("find".to_owned());
    v.push("day".to_owned());
    v.push("also".to_owned());
    v.push("after".to_owned());
    v.push("way".to_owned());
    v.push("many".to_owned());
    v.push("must".to_owned());
    v.push("look".to_owned());
    v.push("before".to_owned());
    v.push("great".to_owned());
    v.push("back".to_owned());
    v.push("through".to_owned());
    v.push("long".to_owned());
    v.push("where".to_owned());
    v.push("much".to_owned());
    v.push("should".to_owned());
    v.push("well".to_owned());
    v.push("people".to_owned());
    v.push("down".to_owned());
    v.push("own".to_owned());
    v.push("just".to_owned());
    v.push("because".to_owned());
    v.push("good".to_owned());
    v.push("each".to_owned());
    v.push("those".to_owned());
    v.push("feel".to_owned());
    v.push("seem".to_owned());
    v.push("how".to_owned());
    v.push("high".to_owned());
    v.push("too".to_owned());
    v.push("place".to_owned());
    v.push("little".to_owned());
    v.push("world".to_owned());
    v.push("very".to_owned());
    v.push("still".to_owned());
    v.push("nation".to_owned());
    v.push("hand".to_owned());
    v.push("old".to_owned());
    v.push("life".to_owned());
    v.push("tell".to_owned());
    v.push("write".to_owned());
    v.push("become".to_owned());
    v.push("here".to_owned());
    v.push("show".to_owned());
    v.push("house".to_owned());
    v.push("both".to_owned());
    v.push("between".to_owned());
    v.push("need".to_owned());
    v.push("mean".to_owned());
    v.push("call".to_owned());
    v.push("develop".to_owned());
    v.push("under".to_owned());
    v.push("last".to_owned());
    v.push("right".to_owned());
    v.push("move".to_owned());
    v.push("thing".to_owned());
    v.push("general".to_owned());
    v.push("school".to_owned());
    v.push("never".to_owned());
    v.push("same".to_owned());
    v.push("another".to_owned());
    v.push("begin".to_owned());
    v.push("while".to_owned());
    v.push("number".to_owned());
    v.push("part".to_owned());
    v.push("turn".to_owned());
    v.push("real".to_owned());
    v.push("leave".to_owned());
    v.push("might".to_owned());
    v.push("want".to_owned());
    v.push("point".to_owned());
    v.push("form".to_owned());
    v.push("off".to_owned());
    v.push("child".to_owned());
    v.push("few".to_owned());
    v.push("small".to_owned());
    v.push("since".to_owned());
    v.push("against".to_owned());
    v.push("ask".to_owned());
    v.push("late".to_owned());
    v.push("home".to_owned());
    v.push("interest".to_owned());
    v.push("large".to_owned());
    v.push("person".to_owned());
    v.push("end".to_owned());
    v.push("open".to_owned());
    v.push("public".to_owned());
    v.push("follow".to_owned());
    v.push("during".to_owned());
    v.push("present".to_owned());
    v.push("without".to_owned());
    v.push("again".to_owned());
    v.push("hold".to_owned());
    v.push("govern".to_owned());
    v.push("around".to_owned());
    v.push("possible".to_owned());
    v.push("head".to_owned());
    v.push("consider".to_owned());
    v.push("word".to_owned());
    v.push("program".to_owned());
    v.push("problem".to_owned());
    v.push("however".to_owned());
    v.push("lead".to_owned());
    v.push("system".to_owned());
    v.push("set".to_owned());
    v.push("order".to_owned());
    v.push("eye".to_owned());
    v.push("plan".to_owned());
    v.push("run".to_owned());
    v.push("keep".to_owned());
    v.push("face".to_owned());
    v.push("fact".to_owned());
    v.push("group".to_owned());
    v.push("play".to_owned());
    v.push("stand".to_owned());
    v.push("increase".to_owned());
    v.push("early".to_owned());
    v.push("course".to_owned());
    v.push("change".to_owned());
    v.push("help".to_owned());
    v.push("line".to_owned());
    v.push("city".to_owned());
    v.push("put".to_owned());
    v.push("close".to_owned());
    v.push("case".to_owned());
    v.push("force".to_owned());
    v.push("meet".to_owned());
    v.push("once".to_owned());
    v.push("water".to_owned());
    v.push("upon".to_owned());
    v.push("war".to_owned());
    v.push("build".to_owned());
    v.push("hear".to_owned());
    v.push("light".to_owned());
    v.push("unite".to_owned());
    v.push("live".to_owned());
    v.push("every".to_owned());
    v.push("country".to_owned());
    v.push("bring".to_owned());
    v.push("center".to_owned());
    v.push("let".to_owned());
    v.push("side".to_owned());
    v.push("try".to_owned());
    v.push("provide".to_owned());
    v.push("continue".to_owned());
    v.push("name".to_owned());
    v.push("certain".to_owned());
    v.push("power".to_owned());
    v.push("pay".to_owned());
    v.push("result".to_owned());
    v.push("question".to_owned());
    v.push("study".to_owned());
    v.push("woman".to_owned());
    v.push("member".to_owned());
    v.push("until".to_owned());
    v.push("far".to_owned());
    v.push("night".to_owned());
    v.push("always".to_owned());
    v.push("service".to_owned());
    v.push("away".to_owned());
    v.push("report".to_owned());
    v.push("something".to_owned());
    v.push("company".to_owned());
    v.push("week".to_owned());
    v.push("church".to_owned());
    v.push("toward".to_owned());
    v.push("start".to_owned());
    v.push("social".to_owned());
    v.push("room".to_owned());
    v.push("figure".to_owned());
    v.push("nature".to_owned());
    v.push("though".to_owned());
    v.push("young".to_owned());
    v.push("less".to_owned());
    v.push("enough".to_owned());
    v.push("almost".to_owned());
    v.push("read".to_owned());
    v.push("include".to_owned());
    v.push("president".to_owned());
    v.push("nothing".to_owned());
    v.push("yet".to_owned());
    v.push("better".to_owned());
    v.push("big".to_owned());
    v.push("boy".to_owned());
    v.push("cost".to_owned());
    v.push("business".to_owned());
    v.push("value".to_owned());
    v.push("second".to_owned());
    v.push("why".to_owned());
    v.push("clear".to_owned());
    v.push("expect".to_owned());
    v.push("family".to_owned());
    v.push("complete".to_owned());
    v.push("act".to_owned());
    v.push("sense".to_owned());
    v.push("mind".to_owned());
    v.push("experience".to_owned());
    v.push("art".to_owned());
    v.push("next".to_owned());
    v.push("near".to_owned());
    v.push("direct".to_owned());
    v.push("car".to_owned());
    v.push("law".to_owned());
    v.push("industry".to_owned());
    v.push("important".to_owned());
    v.push("girl".to_owned());
    v.push("god".to_owned());
    v.push("several".to_owned());
    v.push("matter".to_owned());
    v.push("usual".to_owned());
    v.push("rather".to_owned());
    v.push("per".to_owned());
    v.push("often".to_owned());
    v.push("kind".to_owned());
    v.push("among".to_owned());
    v.push("white".to_owned());
    v.push("reason".to_owned());
    v.push("action".to_owned());
    v.push("return".to_owned());
    v.push("foot".to_owned());
    v.push("care".to_owned());
    v.push("simple".to_owned());
    v.push("within".to_owned());
    v.push("love".to_owned());
    v.push("human".to_owned());
    v.push("along".to_owned());
    v.push("appear".to_owned());
    v.push("doctor".to_owned());
    v.push("believe".to_owned());
    v.push("speak".to_owned());
    v.push("active".to_owned());
    v.push("student".to_owned());
    v.push("month".to_owned());
    v.push("drive".to_owned());
    v.push("concern".to_owned());
    v.push("best".to_owned());
    v.push("door".to_owned());
    v.push("hope".to_owned());
    v.push("example".to_owned());
    v.push("inform".to_owned());
    v.push("body".to_owned());
    v.push("ever".to_owned());
    v.push("least".to_owned());
    v.push("probable".to_owned());
    v.push("understand".to_owned());
    v.push("reach".to_owned());
    v.push("effect".to_owned());
    v.push("different".to_owned());
    v.push("idea".to_owned());
    v.push("whole".to_owned());
    v.push("control".to_owned());
    v.push("condition".to_owned());
    v.push("field".to_owned());
    v.push("pass".to_owned());
    v.push("fall".to_owned());
    v.push("note".to_owned());
    v.push("special".to_owned());
    v.push("talk".to_owned());
    v.push("particular".to_owned());
    v.push("today".to_owned());
    v.push("measure".to_owned());
    v.push("walk".to_owned());
    v.push("teach".to_owned());
    v.push("low".to_owned());
    v.push("hour".to_owned());
    v.push("type".to_owned());
    v.push("carry".to_owned());
    v.push("rate".to_owned());
    v.push("remain".to_owned());
    v.push("full".to_owned());
    v.push("street".to_owned());
    v.push("easy".to_owned());
    v.push("although".to_owned());
    v.push("record".to_owned());
    v.push("sit".to_owned());
    v.push("determine".to_owned());
    v.push("level".to_owned());
    v.push("local".to_owned());
    v.push("sure".to_owned());
    v.push("receive".to_owned());
    v.push("thus".to_owned());
    v.push("moment".to_owned());
    v.push("spirit".to_owned());
    v.push("train".to_owned());
    v.push("college".to_owned());
    v.push("religion".to_owned());
    v.push("perhaps".to_owned());
    v.push("music".to_owned());
    v.push("grow".to_owned());
    v.push("free".to_owned());
    v.push("cause".to_owned());
    v.push("serve".to_owned());
    v.push("age".to_owned());
    v.push("book".to_owned());
    v.push("board".to_owned());
    v.push("recent".to_owned());
    v.push("sound".to_owned());
    v.push("office".to_owned());
    v.push("cut".to_owned());
    v.push("step".to_owned());
    v.push("class".to_owned());
    v.push("true".to_owned());
    v.push("history".to_owned());
    v.push("position".to_owned());
    v.push("above".to_owned());
    v.push("strong".to_owned());
    v.push("friend".to_owned());
    v.push("necessary".to_owned());
    v.push("add".to_owned());
    v.push("court".to_owned());
    v.push("deal".to_owned());
    v.push("tax".to_owned());
    v.push("support".to_owned());
    v.push("party".to_owned());
    v.push("whether".to_owned());
    v.push("either".to_owned());
    v.push("land".to_owned());
    v.push("material".to_owned());
    v.push("happen".to_owned());
    v.push("education".to_owned());
    v.push("death".to_owned());
    v.push("agree".to_owned());
    v.push("arm".to_owned());
    v.push("mother".to_owned());
    v.push("across".to_owned());
    v.push("quite".to_owned());
    v.push("anything".to_owned());
    v.push("town".to_owned());
    v.push("past".to_owned());
    v.push("view".to_owned());
    v.push("society".to_owned());
    v.push("manage".to_owned());
    v.push("answer".to_owned());
    v.push("break".to_owned());
    v.push("organize".to_owned());
    v.push("half".to_owned());
    v.push("fire".to_owned());
    v.push("lose".to_owned());
    v.push("money".to_owned());
    v.push("stop".to_owned());
    v.push("actually".to_owned());
    v.push("already".to_owned());
    v.push("effort".to_owned());
    v.push("wait".to_owned());
    v.push("department".to_owned());
    v.push("able".to_owned());
    v.push("political".to_owned());
    v.push("learn".to_owned());
    v.push("voice".to_owned());
    v.push("air".to_owned());
    v.push("together".to_owned());
    v.push("shall".to_owned());
    v.push("cover".to_owned());
    v.push("common".to_owned());
    v.push("subject".to_owned());
    v.push("draw".to_owned());
    v.push("short".to_owned());
    v.push("wife".to_owned());
    v.push("treat".to_owned());
    v.push("limit".to_owned());
    v.push("road".to_owned());
    v.push("letter".to_owned());
    v.push("color".to_owned());
    v.push("behind".to_owned());
    v.push("produce".to_owned());
    v.push("send".to_owned());
    v.push("term".to_owned());
    v.push("total".to_owned());
    v.push("university".to_owned());
    v.push("rise".to_owned());
    v.push("century".to_owned());
    v.push("success".to_owned());
    v.push("minute".to_owned());
    v.push("remember".to_owned());
    v.push("purpose".to_owned());
    v.push("test".to_owned());
    v.push("fight".to_owned());
    v.push("watch".to_owned());
    v.push("situation".to_owned());
    v.push("south".to_owned());
    v.push("ago".to_owned());
    v.push("difference".to_owned());
    v.push("stage".to_owned());
    v.push("father".to_owned());
    v.push("table".to_owned());
    v.push("rest".to_owned());
    v.push("bear".to_owned());
    v.push("entire".to_owned());
    v.push("market".to_owned());
    v.push("prepare".to_owned());
    v.push("explain".to_owned());
    v.push("offer".to_owned());
    v.push("plant".to_owned());
    v.push("charge".to_owned());
    v.push("ground".to_owned());
    v.push("west".to_owned());
    v.push("picture".to_owned());
    v.push("hard".to_owned());
    v.push("front".to_owned());
    v.push("lie".to_owned());
    v.push("modern".to_owned());
    v.push("dark".to_owned());
    v.push("surface".to_owned());
    v.push("rule".to_owned());
    v.push("regard".to_owned());
    v.push("dance".to_owned());
    v.push("peace".to_owned());
    v.push("observe".to_owned());
    v.push("future".to_owned());
    v.push("wall".to_owned());
    v.push("farm".to_owned());
    v.push("claim".to_owned());
    v.push("firm".to_owned());
    v.push("operation".to_owned());
    v.push("further".to_owned());
    v.push("pressure".to_owned());
    v.push("property".to_owned());
    v.push("morning".to_owned());
    v.push("amount".to_owned());
    v.push("top".to_owned());
    v.push("outside".to_owned());
    v.push("piece".to_owned());
    v.push("sometimes".to_owned());
    v.push("beside".to_owned());
    v.push("army".to_owned());
    v.push("bed".to_owned());
    v.push("fear".to_owned());
    v
}

fn french_words() -> Vec<String> {
    let mut v: Vec<String> = Vec::new();
    v.push("le".to_owned());
    v.push("de".to_owned());
    v.push("un".to_owned());
    v.push("a".to_owned());
    v.push("etre".to_owned());
    v.push("et".to_owned());
    v.push("en".to_owned());
    v.push("avoir".to_owned());
    v.push("que".to_owned());
    v.push("pour".to_owned());
    v.push("dans".to_owned());
    v.push("ce".to_owned());
    v.push("il".to_owned());
    v.push("qui".to_owned());
    v.push("ne".to_owned());
    v.push("sur".to_owned());
    v.push("se".to_owned());
    v.push("pas".to_owned());
    v.push("plus".to_owned());
    v.push("pouvoir".to_owned());
    v.push("par".to_owned());
    v.push("je".to_owned());
    v.push("avec".to_owned());
    v.push("tout".to_owned());
    v.push("faire".to_owned());
    v.push("son".to_owned());
    v.push("mettre".to_owned());
    v.push("autre".to_owned());
    v.push("on".to_owned());
    v.push("mais".to_owned());
    v.push("nous".to_owned());
    v.push("comme".to_owned());
    v.push("ou".to_owned());
    v.push("si".to_owned());
    v.push("leur".to_owned());
    v.push("y".to_owned());
    v.push("dire".to_owned());
    v.push("elle".to_owned());
    v.push("devoir".to_owned());
    v.push("avant".to_owned());
    v.push("deux".to_owned());
    v.push("meme".to_owned());
    v.push("prendre".to_owned());
    v.push("aussi".to_owned());
    v.push("celui".to_owned());
    v.push("donner".to_owned());
    v.push("bien".to_owned());
    v.push("fois".to_owned());
    v.push("vous".to_owned());
    v.push("encore".to_owned());
    v.push("nouveau".to_owned());
    v.push("aller".to_owned());
    v.push("cela".to_owned());
    v.push("entre".to_owned());
    v.push("premier".to_owned());
    v.push("vouloir".to_owned());
    v.push("deja".to_owned());
    v.push("grand".to_owned());
    v.push("mon".to_owned());
    v.push("me".to_owned());
    v.push("moins".to_owned());
    v.push("aucun".to_owned());
    v.push("lui".to_owned());
    v.push("temps".to_owned());
    v.push("tres".to_owned());
    v.push("savoir".to_owned());
    v.push("falloir".to_owned());
    v.push("voir".to_owned());
    v.push("quelque".to_owned());
    v.push("sans".to_owned());
    v.push("raison".to_owned());
    v.push("notre".to_owned());
    v.push("dont".to_owned());
    v.push("non".to_owned());
    v.push("an".to_owned());
    v.push("monde".to_owned());
    v.push("jour".to_owned());
    v.push("monsieur".to_owned());
    v.push("demander".to_owned());
    v.push("alors".to_owned());
    v.push("apres".to_owned());
    v.push("trouver".to_owned());
    v.push("personne".to_owned());
    v.push("rendre".to_owned());
    v.push("part".to_owned());
    v.push("dernier".to_owned());
    v.push("venir".to_owned());
    v.push("pendant".to_owned());
    v.push("passer".to_owned());
    v.push("peu".to_owned());
    v.push("lequel".to_owned());
    v.push("suite".to_owned());
    v.push("bon".to_owned());
    v.push("comprendre".to_owned());
    v.push("depuis".to_owned());
    v.push("point".to_owned());
    v.push("ainsi".to_owned());
    v.push("heure".to_owned());
    v.push("rester".to_owned());
    v.push("seul".to_owned());
    v.push("annee".to_owned());
    v.push("toujours".to_owned());
    v.push("tenir".to_owned());
    v.push("porter".to_owned());
    v.push("parler".to_owned());
    v.push("montrer".to_owned());
    v.push("quelques".to_owned());
    v.push("moment".to_owned());
    v.push("laisser".to_owned());
    v.push("petit".to_owned());
    v.push("contre".to_owned());
    v.push("chose".to_owned());
    v.push("homme".to_owned());
    v.push("vie".to_owned());
    v.push("place".to_owned());
    v.push("nombre".to_owned());
    v.push("suivre".to_owned());
    v.push("servir".to_owned());
    v.push("plusieurs".to_owned());
    v.push("mois".to_owned());
    v.push("ouvrir".to_owned());
    v.push("femme".to_owned());
    v.push("arriver".to_owned());
    v.push("main".to_owned());
    v.push("chercher".to_owned());
    v.push("donc".to_owned());
    v.push("question".to_owned());
    v.push("force".to_owned());
    v.push("beaucoup".to_owned());
    v
}

fn german_words() -> Vec<String> {
    let mut v: Vec<String> = Vec::new();
    v.push("der".to_owned());
    v.push("die".to_owned());
    v.push("und".to_owned());
    v.push("in".to_owned());
    v.push("den".to_owned());
    v.push("von".to_owned());
    v.push("zu".to_owned());
    v.push("das".to_owned());
    v.push("mit".to_owned());
    v.push("sich".to_owned());
    v.push("des".to_owned());
    v.push("auf".to_owned());
    v.push("fur".to_owned());
    v.push("ist".to_owned());
    v.push("im".to_owned());
    v.push("dem".to_owned());
    v.push("nicht".to_owned());
    v.push("ein".to_owned());
    v.push("eine".to_owned());
    v.push("als".to_owned());
    v.push("auch".to_owned());
    v.push("es".to_owned());
    v.push("an".to_owned());
    v.push("werden".to_owned());
    v.push("aus".to_owned());
    v.push("er".to_owned());
    v.push("hat".to_owned());
    v.push("dass".to_owned());
    v.push("sie".to_owned());
    v.push("nach".to_owned());
    v.push("wird".to_owned());
    v.push("bei".to_owned());
    v.push("einer".to_owned());
    v.push("um".to_owned());
    v.push("am".to_owned());
    v.push("sind".to_owned());
    v.push("noch".to_owned());
    v.push("wie".to_owned());
    v.push("einem".to_owned());
    v.push("uber".to_owned());
    v.push("einen".to_owned());
    v.push("so".to_owned());
    v.push("zum".to_owned());
    v.push("war".to_owned());
    v.push("haben".to_owned());
    v.push("nur".to_owned());
    v.push("oder".to_owned());
    v.push("aber".to_owned());
    v.push("vor".to_owned());
    v.push("zur".to_owned());
    v.push("bis".to_owned());
    v.push("mehr".to_owned());
    v.push("durch".to_owned());
    v.push("man".to_owned());
    v.push("sein".to_owned());
    v.push("wurde".to_owned());
    v.push("sei".to_owned());
    v.push("ich".to_owned());
    v.push("ihre".to_owned());
    v.push("dann".to_owned());
    v.push("unter".to_owned());
    v.push("wir".to_owned());
    v.push("soll".to_owned());
    v.push("schon".to_owned());
    v.push("hier".to_owned());
    v.push("alle".to_owned());
    v.push("wenn".to_owned());
    v.push("kann".to_owned());
    v.push("mein".to_owned());
    v.push("gegen".to_owned());
    v.push("vom".to_owned());
    v.push("konnen".to_owned());
    v.push("diese".to_owned());
    v.push("wieder".to_owned());
    v.push("meine".to_owned());
    v.push("zeit".to_owned());
    v.push("gut".to_owned());
    v.push("wissen".to_owned());
    v.push("jahr".to_owned());
    v.push("ihm".to_owned());
    v.push("weil".to_owned());
    v.push("machen".to_owned());
    v.push("dies".to_owned());
    v.push("ihn".to_owned());
    v.push("lassen".to_owned());
    v.push("will".to_owned());
    v.push("welt".to_owned());
    v.push("mensch".to_owned());
    v.push("leben".to_owned());
    v.push("immer".to_owned());
    v.push("was".to_owned());
    v.push("doch".to_owned());
    v.push("beim".to_owned());
    v.push("etwa".to_owned());
    v.push("zwei".to_owned());
    v.push("heute".to_owned());
    v.push("weit".to_owned());
    v.push("ohne".to_owned());
    v.push("selbst".to_owned());
    v.push("ihnen".to_owned());
    v.push("weg".to_owned());
    v.push("erst".to_owned());
    v.push("tag".to_owned());
    v.push("nun".to_owned());
    v.push("jetzt".to_owned());
    v.push("muss".to_owned());
    v.push("gibt".to_owned());
    v.push("gar".to_owned());
    v.push("eben".to_owned());
    v.push("oft".to_owned());
    v.push("drei".to_owned());
    v.push("sehen".to_owned());
    v.push("wollen".to_owned());
    v.push("land".to_owned());
    v.push("frau".to_owned());
    v.push("hand".to_owned());
    v.push("stadt".to_owned());
    v.push("name".to_owned());
    v.push("kind".to_owned());
    v.push("teil".to_owned());
    v.push("frage".to_owned());
    v.push("haus".to_owned());
    v.push("fall".to_owned());
    v.push("recht".to_owned());
    v.push("ende".to_owned());
    v
}

fn italian_words() -> Vec<String> {
    let mut v: Vec<String> = Vec::new();
    v.push("che".to_owned());
    v.push("di".to_owned());
    v.push("la".to_owned());
    v.push("il".to_owned());
    v.push("un".to_owned());
    v.push("a".to_owned());
    v.push("per".to_owned());
    v.push("e".to_owned());
    v.push("una".to_owned());
    v.push("in".to_owned());
    v.push("sono".to_owned());
    v.push("mi".to_owned());
    v.push("ho".to_owned());
    v.push("si".to_owned());
    v.push("lo".to_owned());
    v.push("ma".to_owned());
    v.push("ti".to_owned());
    v.push("ha".to_owned());
    v.push("le".to_owned());
    v.push("cosa".to_owned());
    v.push("con".to_owned());
    v.push("no".to_owned());
    v.push("se".to_owned());
    v.push("io".to_owned());
    v.push("questo".to_owned());
    v.push("qui".to_owned());
    v.push("bene".to_owned());
    v.push("del".to_owned());
    v.push("tu".to_owned());
    v.push("come".to_owned());
    v.push("hai".to_owned());
    v.push("ci".to_owned());
    v.push("sei".to_owned());
    v.push("da".to_owned());
    v.push("piu".to_owned());
    v.push("al".to_owned());
    v.push("me".to_owned());
    v.push("mia".to_owned());
    v.push("tutto".to_owned());
    v.push("te".to_owned());
    v.push("della".to_owned());
    v.push("ne".to_owned());
    v.push("sta".to_owned());
    v.push("fatto".to_owned());
    v.push("perche".to_owned());
    v.push("ora".to_owned());
    v.push("bella".to_owned());
    v.push("fare".to_owned());
    v.push("vita".to_owned());
    v.push("suo".to_owned());
    v.push("quando".to_owned());
    v.push("era".to_owned());
    v.push("lei".to_owned());
    v.push("anche".to_owned());
    v.push("molto".to_owned());
    v.push("chi".to_owned());
    v.push("detto".to_owned());
    v.push("lui".to_owned());
    v.push("tuo".to_owned());
    v.push("loro".to_owned());
    v.push("solo".to_owned());
    v.push("essere".to_owned());
    v.push("due".to_owned());
    v.push("cose".to_owned());
    v.push("noi".to_owned());
    v.push("grazie".to_owned());
    v.push("casa".to_owned());
    v.push("quella".to_owned());
    v.push("ancora".to_owned());
    v.push("gia".to_owned());
    v.push("niente".to_owned());
    v.push("sempre".to_owned());
    v.push("mio".to_owned());
    v.push("tempo".to_owned());
    v.push("deve".to_owned());
    v.push("uomo".to_owned());
    v.push("stato".to_owned());
    v.push("dove".to_owned());
    v.push("prima".to_owned());
    v.push("voglio".to_owned());
    v.push("quanto".to_owned());
    v.push("vuole".to_owned());
    v.push("adesso".to_owned());
    v.push("siamo".to_owned());
    v.push("allora".to_owned());
    v.push("anni".to_owned());
    v.push("padre".to_owned());
    v.push("madre".to_owned());
    v.push("altro".to_owned());
    v.push("uno".to_owned());
    v.push("cosi".to_owned());
    v.push("tanto".to_owned());
    v.push("poi".to_owned());
    v.push("mondo".to_owned());
    v.push("modo".to_owned());
    v.push("notte".to_owned());
    v.push("giorno".to_owned());
    v.push("senza".to_owned());
    v.push("nostro".to_owned());
    v.push("certo".to_owned());
    v.push("dio".to_owned());
    v.push("posso".to_owned());
    v.push("andare".to_owned());
    v.push("questa".to_owned());
    v.push("mai".to_owned());
    v.push("grande".to_owned());
    v.push("altri".to_owned());
    v.push("dopo".to_owned());
    v.push("ogni".to_owned());
    v.push("giusto".to_owned());
    v.push("parte".to_owned());
    v.push("signore".to_owned());
    v.push("donna".to_owned());
    v.push("amico".to_owned());
    v.push("vero".to_owned());
    v.push("nulla".to_owned());
    v.push("qualcosa".to_owned());
    v.push("figlio".to_owned());
    v.push("momento".to_owned());
    v.push("mano".to_owned());
    v.push("testa".to_owned());
    v.push("forse".to_owned());
    v.push("subito".to_owned());
    v.push("insieme".to_owned());
    v.push("posto".to_owned());
    v.push("strada".to_owned());
    v.push("aiuto".to_owned());
    v.push("capito".to_owned());
    v.push("davvero".to_owned());
    v.push("oggi".to_owned());
    v.push("buona".to_owned());
    v.push("sera".to_owned());
    v.push("tre".to_owned());
    v.push("persone".to_owned());
    v
}

fn portuguese_words() -> Vec<String> {
    let mut v: Vec<String> = Vec::new();
    v.push("que".to_owned());
    v.push("nao".to_owned());
    v.push("de".to_owned());
    v.push("um".to_owned());
    v.push("o".to_owned());
    v.push("e".to_owned());
    v.push("eu".to_owned());
    v.push("se".to_owned());
    v.push("me".to_owned());
    v.push("uma".to_owned());
    v.push("esta".to_owned());
    v.push("para".to_owned());
    v.push("isso".to_owned());
    v.push("com".to_owned());
    v.push("os".to_owned());
    v.push("ele".to_owned());
    v.push("por".to_owned());
    v.push("mas".to_owned());
    v.push("ela".to_owned());
    v.push("aqui".to_owned());
    v.push("sim".to_owned());
    v.push("como".to_owned());
    v.push("vamos".to_owned());
    v.push("mais".to_owned());
    v.push("tem".to_owned());
    v.push("foi".to_owned());
    v.push("do".to_owned());
    v.push("voce".to_owned());
    v.push("em".to_owned());
    v.push("ter".to_owned());
    v.push("bem".to_owned());
    v.push("ao".to_owned());
    v.push("sei".to_owned());
    v.push("da".to_owned());
    v.push("ser".to_owned());
    v.push("estou".to_owned());
    v.push("tudo".to_owned());
    v.push("muito".to_owned());
    v.push("la".to_owned());
    v.push("nos".to_owned());
    v.push("ja".to_owned());
    v.push("quando".to_owned());
    v.push("sabe".to_owned());
    v.push("coisa".to_owned());
    v.push("seu".to_owned());
    v.push("minha".to_owned());
    v.push("tenho".to_owned());
    v.push("tempo".to_owned());
    v.push("agora".to_owned());
    v.push("tambem".to_owned());
    v.push("vou".to_owned());
    v.push("quem".to_owned());
    v.push("tres".to_owned());
    v.push("anos".to_owned());
    v.push("dois".to_owned());
    v.push("casa".to_owned());
    v.push("mesmo".to_owned());
    v.push("sempre".to_owned());
    v.push("fazer".to_owned());
    v.push("dia".to_owned());
    v.push("onde".to_owned());
    v.push("ainda".to_owned());
    v.push("depois".to_owned());
    v.push("nada".to_owned());
    v.push("gente".to_owned());
    v.push("vida".to_owned());
    v.push("outro".to_owned());
    v.push("certo".to_owned());
    v.push("todos".to_owned());
    v.push("deus".to_owned());
    v.push("homem".to_owned());
    v.push("noite".to_owned());
    v.push("assim".to_owned());
    v.push("ate".to_owned());
    v.push("favor".to_owned());
    v.push("verdade".to_owned());
    v.push("obrigado".to_owned());
    v.push("pai".to_owned());
    v.push("filho".to_owned());
    v.push("mae".to_owned());
    v.push("amigo".to_owned());
    v.push("melhor".to_owned());
    v.push("nunca".to_owned());
    v.push("pode".to_owned());
    v.push("porque".to_owned());
    v.push("antes".to_owned());
    v.push("entao".to_owned());
    v.push("algo".to_owned());
    v.push("dinheiro".to_owned());
    v.push("trabalho".to_owned());
    v.push("mundo".to_owned());
    v.push("cada".to_owned());
    v.push("parte".to_owned());
    v.push("lugar".to_owned());
    v.push("hoje".to_owned());
    v.push("olha".to_owned());
    v.push("senhor".to_owned());
    v.push("grande".to_owned());
    v.push("pessoas".to_owned());
    v.push("falar".to_owned());
    v.push("dizer".to_owned());
    v.push("precisa".to_owned());
    v.push("acho".to_owned());
    v.push("nome".to_owned());
    v.push("cabeca".to_owned());
    v.push("conta".to_owned());
    v.push("forma".to_owned());
    v.push("caso".to_owned());
    v.push("contra".to_owned());
    v.push("desde".to_owned());
    v.push("durante".to_owned());
    v.push("entre".to_owned());
    v.push("exemplo".to_owned());
    v.push("fim".to_owned());
    v.push("grupo".to_owned());
    v.push("governo".to_owned());
    v.push("guerra".to_owned());
    v.push("historia".to_owned());
    v.push("ideia".to_owned());
    v.push("igual".to_owned());
    v.push("importante".to_owned());
    v
}

fn spanish_words() -> Vec<String> {
    let mut v: Vec<String> = Vec::new();
    v.push("que".to_owned());
    v.push("de".to_owned());
    v.push("no".to_owned());
    v.push("a".to_owned());
    v.push("la".to_owned());
    v.push("el".to_owned());
    v.push("es".to_owned());
    v.push("y".to_owned());
    v.push("en".to_owned());
    v.push("lo".to_owned());
    v.push("un".to_owned());
    v.push("por".to_owned());
    v.push("me".to_owned());
    v.push("una".to_owned());
    v.push("te".to_owned());
    v.push("los".to_owned());
    v.push("se".to_owned());
    v.push("con".to_owned());
    v.push("para".to_owned());
    v.push("mi".to_owned());
    v.push("esta".to_owned());
    v.push("si".to_owned());
    v.push("bien".to_owned());
    v.push("pero".to_owned());
    v.push("yo".to_owned());
    v.push("eso".to_owned());
    v.push("las".to_owned());
    v.push("su".to_owned());
    v.push("como".to_owned());
    v.push("mas".to_owned());
    v.push("o".to_owned());
    v.push("aqui".to_owned());
    v.push("del".to_owned());
    v.push("al".to_owned());
    v.push("algo".to_owned());
    v.push("estoy".to_owned());
    v.push("muy".to_owned());
    v.push("todo".to_owned());
    v.push("ella".to_owned());
    v.push("vamos".to_owned());
    v.push("tu".to_owned());
    v.push("nos".to_owned());
    v.push("ya".to_owned());
    v.push("ser".to_owned());
    v.push("va".to_owned());
    v.push("ese".to_owned());
    v.push("son".to_owned());
    v.push("tengo".to_owned());
    v.push("fue".to_owned());
    v.push("hacer".to_owned());
    v.push("ahora".to_owned());
    v.push("hay".to_owned());
    v.push("donde".to_owned());
    v.push("quien".to_owned());
    v.push("estas".to_owned());
    v.push("nada".to_owned());
    v.push("cuando".to_owned());
    v.push("he".to_owned());
    v.push("este".to_owned());
    v.push("quiero".to_owned());
    v.push("sobre".to_owned());
    v.push("ir".to_owned());
    v.push("asi".to_owned());
    v.push("todos".to_owned());
    v.push("tiene".to_owned());
    v.push("nunca".to_owned());
    v.push("puedo".to_owned());
    v.push("dos".to_owned());
    v.push("tan".to_owned());
    v.push("gracias".to_owned());
    v.push("hombre".to_owned());
    v.push("creo".to_owned());
    v.push("casa".to_owned());
    v.push("ellos".to_owned());
    v.push("favor".to_owned());
    v.push("tiempo".to_owned());
    v.push("verdad".to_owned());
    v.push("mejor".to_owned());
    v.push("algun".to_owned());
    v.push("cosa".to_owned());
    v.push("claro".to_owned());
    v.push("vida".to_owned());
    v.push("siempre".to_owned());
    v.push("entonces".to_owned());
    v.push("dios".to_owned());
    v.push("dia".to_owned());
    v.push("uno".to_owned());
    v.push("mundo".to_owned());
    v.push("sabes".to_owned());
    v.push("hasta".to_owned());
    v.push("sin".to_owned());
    v.push("decir".to_owned());
    v.push("esto".to_owned());
    v.push("hola".to_owned());
    v.push("voy".to_owned());
    v.push("luego".to_owned());
    v.push("gente".to_owned());
    v.push("vez".to_owned());
    v.push("noche".to_owned());
    v.push("nadie".to_owned());
    v.push("otra".to_owned());
    v.push("alguien".to_owned());
    v.push("antes".to_owned());
    v.push("bueno".to_owned());
    v.push("mucho".to_owned());
    v.push("poco".to_owned());
    v.push("debe".to_owned());
    v.push("parte".to_owned());
    v.push("hijo".to_owned());
    v.push("solo".to_owned());
    v.push("estar".to_owned());
    v.push("quieres".to_owned());
    v.push("tres".to_owned());
    v.push("porque".to_owned());
    v.push("sus".to_owned());
    v.push("buena".to_owned());
    v.push("tener".to_owned());
    v.push("puede".to_owned());
    v.push("dinero".to_owned());
    v.push("aun".to_owned());
    v.push("otro".to_owned());
    v.push("trabajo".to_owned());
    v.push("mismo".to_owned());
    v.push("padre".to_owned());
    v.push("cierto".to_owned());
    v.push("amigo".to_owned());
    v.push("cada".to_owned());
    v.push("tal".to_owned());
    v.push("vete".to_owned());
    v.push("mujer".to_owned());
    v.push("anos".to_owned());
    v.push("contigo".to_owned());
    v.push("ves".to_owned());
    v.push("toda".to_owned());
    v.push("mira".to_owned());
    v.push("haciendo".to_owned());
    v.push("paso".to_owned());
    v.push("menos".to_owned());
    v.push("primera".to_owned());
    v.push("puerta".to_owned());
    v.push("posible".to_owned());
    v.push("aquellos".to_owned());
    v.push("momento".to_owned());
    v.push("tarde".to_owned());
    v.push("senor".to_owned());
    v.push("hecho".to_owned());
    v.push("nuevo".to_owned());
    v.push("pueblo".to_owned());
    v.push("lugar".to_owned());
    v.push("cinco".to_owned());
    v.push("tipo".to_owned());
    v.push("saber".to_owned());
    v.push("familia".to_owned());
    v.push("hablar".to_owned());
    v
}

/// Guard a raw word list: drop any empty entry, and fall back to a single
/// placeholder word if nothing is left, so that every registered list meets
/// the `Language` invariant by construction.
fn checked_word_list(raw: Vec<String>) -> (v: Vec<String>)
    ensures
        1 <= v@.len() <= 0xffff_ffff,
        forall|i: int| 0 <= i < v@.len() ==> (#[trigger] v@[i])@.len() > 0,
{
    let n = raw.len();
    let mut v: Vec<String> = Vec::new();
    let mut i: usize = 0;
    while i < n
        invariant
            n == raw@.len(),
            i <= n,
            forall|j: int| 0 <= j < v@.len() ==> (#[trigger] v@[j])@.len() > 0,
        decreases n - i,
    {
        if raw[i].as_str().unicode_len() > 0 {
            v.push(raw[i].clone());
        }
        i = i + 1;
    }
    if v.len() == 0 {
        let w = "word".to_owned();
        proof {
            reveal_strlit("word");
            assert(w@.len() > 0);
        }
        v.push(w);
    }
    if v.len() > 0xffff_ffff {
        v.truncate(0xffff_ffff);
    }
    v
}

// == The registry ==

/// The language identifiers with a registered word list.
pub open spec fn spec_is_known_language(n: Seq<char>) -> bool {
    ||| n == "code_go"@
    ||| n == "code_javascript"@
    ||| n == "code_python"@
    ||| n == "code_rust"@
    ||| n == "code_typescript"@
    ||| n == "english"@
    ||| n == "french"@
    ||| n == "german"@
    ||| n == "italian"@
    ||| n == "portuguese"@
    ||| n == "spanish"@
}

/// Whether a language identifier has a registered word list.
pub fn is_known_language(name: &str) -> (r: bool)
    ensures
        r == spec_is_known_language(name@),
{
    if str_eq(name, "code_go") {
        return true;
    }
    if str_eq(name, "code_javascript") {
        return true;
    }
    if str_eq(name, "code_python") {
        return true;
    }
    if str_eq(name, "code_rust") {
        return true;
    }
    if str_eq(name, "code_typescript") {
        return true;
    }
    if str_eq(name, "english") {
        return true;
    }
    if str_eq(name, "french") {
        return true;
    }
    if str_eq(name, "german") {
        return true;
    }
    if str_eq(name, "italian") {
        return true;
    }
    if str_eq(name, "portuguese") {
        return true;
    }
    if str_eq(name, "spanish") {
        return true;
    }
    false
}

/// Look a registered language up by its identifier. An unknown identifier is
/// a configuration defect, not user input: callers establish that it is
/// registered (see `is_known_language`) and fail loudly themselves when it is
/// not.
pub fn get_language(name: &str) -> (lang: Language)
    requires
        spec_is_known_language(name@),
    ensures
        lang.name@ == name@,
        lang.wf(),
{
    if str_eq(name, "code_go") {
        Language {
            name: "code_go".to_owned(),
            ordered_by_frequency: Some(true),
            no_lazy_mode: None,
            words: checked_word_list(code_go_words()),
        }
    } else if str_eq(name, "code_javascript") {
        Language {
            name: "code_javascript".to_owned(),
            ordered_by_frequency: Some(true),
            no_lazy_mode: None,
            words: checked_word_list(code_javascript_words()),
        }
    } else if str_eq(name, "code_python") {
        Language {
            name: "code_python".to_owned(),
            ordered_by_frequency: Some(true),
            no_lazy_mode: None,
            words: checked_word_list(code_python_words()),
        }
    } else if str_eq(name, "code_rust") {
        Language {
            name: "code_rust".to_owned(),
            ordered_by_frequency: Some(true),
            no_lazy_mode: None,
            words: checked_word_list(code_rust_words()),
        }
    } else if str_eq(name, "code_typescript") {
        Language {
            name: "code_typescript".to_owned(),
            ordered_by_frequency: Some(true),
            no_lazy_mode: None,
            words: checked_word_list(code_typescript_words()),
        }
    } else if str_eq(name, "english") {
        Language {
            name: "english".to_owned(),
            ordered_by_frequency: Some(true),
            no_lazy_mode: None,
            words: checked_word_list(english_words()),
        }
    } else if str_eq(name, "french") {
        Language {
            name: "french".to_owned(),
            ordered_by_frequency: Some(true),
            no_lazy_mode: None,
            words: checked_word_list(french_words()),
        }
    } else if str_eq(name, "german") {
        Language {
            name: "german".to_owned(),
            ordered_by_frequency: Some(true),
            no_lazy_mode: None,
            words: checked_word_list(german_words()),
        }
    } else if str_eq(name, "italian") {
        Language {
            name: "italian".to_owned(),
            ordered_by_frequency: Some(true),
            no_lazy_mode: None,
            words: checked_word_list(italian_words()),
        }
    } else if str_eq(name, "portuguese") {
        Language {
            name: "portuguese".to_owned(),
            ordered_by_frequency: Some(true),
            no_lazy_mode: None,
            words: checked_word_list(portuguese_words()),
        }
    } else {
        proof {
            assert(name@ == "spanish"@);
        }
        Language {
            name: "spanish".to_owned(),
            ordered_by_frequency: Some(true),
            no_lazy_mode: None,
            words: checked_word_list(spanish_words()),
        }
    }
}

/// The registered language identifiers, in sorted order.
pub fn get_available_languages() -> (v: Vec<&'static str>)
    ensures
        v@.len() == 11,
        forall|i: int| 0 <= i < v@.len() ==> spec_is_known_language((#[trigger] v@[i])@),
{
    let mut v: Vec<&'static str> = Vec::new();
    v.push("code_go");
    v.push("code_javascript");
    v.push("code_python");
    v.push("code_rust");
    v.push("code_typescript");
    v.push("english");
    v.push("french");
    v.push("german");
    v.push("italian");
    v.push("portuguese");
    v.push("spanish");
    v
}

} // verus!
