//! The pages that the pipeline renders, each a fixed frame around the data
//! it shows.
use vstd::prelude::*;
use crate::text::{decimal, decimal_string};

verus! {

pub const HELP_PAGE_0: &'static str = r"
                                        <div style='display:flex; flex-direction:column; align-items:center; justify-content:center; min-height:100%; background:#050505; color:#00ff41; font-family:monospace; text-align:center;'>
                                            <h1 style='color:#00ccff; text-shadow: 0 0 10px #00ccff55;'>⚡ IsoBrowse Codex</h1>
                                            <div style='background:#111; border:1px solid #333; padding:20px; text-align:left; max-width:800px; margin-top:20px; width: 90%; box-shadow: 0 0 15px #00ff4111;'>
                                                <div style='background:#000; border:1px solid #00ff41; padding:20px; max-height: 400px; overflow-y: auto;'>
                                                    <div style='color:#00ff41; font-size:19px; line-height:1.6; letter-spacing:0.5px; white-space: pre-wrap;'>";
pub const HELP_PAGE_1: &'static str = r"</div>
                                                </div>
                                            </div>
                                        </div>";

/// The codex page showing the pipeline data.
pub open spec fn help_page_spec(data: Seq<char>) -> Seq<char> {
    HELP_PAGE_0@ + data + HELP_PAGE_1@
}

/// The codex page showing the pipeline data.
pub fn help_page(data: &str) -> (out: String)
    ensures
        out@ == help_page_spec(data@),
{
    let mut out = String::from_str(HELP_PAGE_0);
    out.append(data);
    out.append(HELP_PAGE_1);
    out
}

pub const READ_PAGE_0: &'static str = r"
                                                <div style='display:flex; flex-direction:column; align-items:center; justify-content:center; min-height:100%; background:#050505; color:#00ff41; font-family:monospace; text-align:center;'>
                                                    <h1 style='color:#00ccff; text-shadow: 0 0 10px #00ccff55;'>⚡ Local File Access Complete</h1>
                                                    <div style='background:#111; border:1px solid #333; padding:20px; text-align:left; max-width:800px; margin-top:20px; width: 90%; box-shadow: 0 0 15px #00ff4111;'>
                                                        <p style='color:#888;'>Target: <span style='color:#fff;'>";
pub const READ_PAGE_1: &'static str = r"</span></p>
                                                        <hr style='border:1px dashed #333; margin:15px 0;'>
                                                        <div style='background:#000; border:1px solid #00ff41; padding:20px; margin-top:10px; max-height: 400px; overflow-y: auto;'>
                                                            <div style='display:flex; justify-content:space-between; align-items:center; border-bottom:1px dashed #333; padding-bottom:10px; margin-bottom:10px;'>
                                                                <span style='color:#888; font-size:10px;'>[FILE CONTENTS]</span>
                                                                <button onclick='let val=this.parentElement.nextElementSibling.innerText; try{navigator.clipboard.writeText(val);}catch(e){let ta=document.createElement(`textarea`);ta.value=val;document.body.appendChild(ta);ta.select();document.execCommand(`copy`);ta.remove();} let oldBg=this.style.background; this.style.background=`#00ff41`; this.style.color=`#000`; this.innerText=`[ COPIED! ]`; setTimeout(()=>{this.style.background=oldBg; this.style.color=`#00ff41`; this.innerText=`[ COPY DATA ]`;}, 800);' style='background:#003300; color:#00ff41; border:1px solid #00ff41; cursor:pointer; padding:4px 10px; font-family:monospace; font-weight:bold; outline:none; transition:0.2s;'>[ COPY DATA ]</button>
                                                            </div>
                                                            <div style='color:#00ff41; font-size:16px; white-space: pre-wrap; line-height:1.5;'>";
pub const READ_PAGE_2: &'static str = r"</div>
                                                        </div>
                                                    </div>
                                                </div>
                                            ";

/// The page for a local file that was read, with its path and contents.
pub open spec fn read_page_spec(path: Seq<char>, data: Seq<char>) -> Seq<char> {
    READ_PAGE_0@ + path + READ_PAGE_1@ + data + READ_PAGE_2@
}

/// The page for a local file that was read, with its path and contents.
pub fn read_page(path: &str, data: &str) -> (out: String)
    ensures
        out@ == read_page_spec(path@, data@),
{
    let mut out = String::from_str(READ_PAGE_0);
    out.append(path);
    out.append(READ_PAGE_1);
    out.append(data);
    out.append(READ_PAGE_2);
    out
}

pub const ERROR_PAGE_0: &'static str = "<div style='color:#ff3366; font-family:monospace; text-align:center; padding:50px;'><h2>🚨 PIPELINE ERROR</h2><p>";
pub const ERROR_PAGE_1: &'static str = "</p></div>";

/// The page for a failed step, with the failure.
pub open spec fn error_page_spec(detail: Seq<char>) -> Seq<char> {
    ERROR_PAGE_0@ + detail + ERROR_PAGE_1@
}

/// The page for a failed step, with the failure.
pub fn error_page(detail: &str) -> (out: String)
    ensures
        out@ == error_page_spec(detail@),
{
    let mut out = String::from_str(ERROR_PAGE_0);
    out.append(detail);
    out.append(ERROR_PAGE_1);
    out
}

pub const GET_PAGE_0: &'static str = r"
                                                    <div style='display:flex; flex-direction:column; align-items:center; justify-content:center; min-height:100%; background:#050505; color:#00ff41; font-family:monospace; text-align:center;'>
                                                        <h1 style='color:#00ccff; text-shadow: 0 0 10px #00ccff55;'>⚡ Remote Data Fetched</h1>
                                                        <div style='background:#111; border:1px solid #333; padding:20px; text-align:left; max-width:800px; margin-top:20px; width: 90%; box-shadow: 0 0 15px #00ff4111;'>
                                                            <p style='color:#888;'>Source: <span style='color:#fff;'>";
pub const GET_PAGE_1: &'static str = r"</span></p>
                                                            <hr style='border:1px dashed #333; margin:15px 0;'>
                                                            <div style='background:#000; border:1px solid #00ff41; padding:20px; margin-top:10px; max-height: 400px; overflow-y: auto;'>
                                                                <div style='color:#00ff41; font-size:14px; white-space: pre-wrap; line-height:1.5;'>";
pub const GET_PAGE_2: &'static str = r"</div>
                                                            </div>
                                                        </div>
                                                    </div>";

/// The page for downloaded data, with its source and contents.
pub open spec fn get_page_spec(url: Seq<char>, data: Seq<char>) -> Seq<char> {
    GET_PAGE_0@ + url + GET_PAGE_1@ + data + GET_PAGE_2@
}

/// The page for downloaded data, with its source and contents.
pub fn get_page(url: &str, data: &str) -> (out: String)
    ensures
        out@ == get_page_spec(url@, data@),
{
    let mut out = String::from_str(GET_PAGE_0);
    out.append(url);
    out.append(GET_PAGE_1);
    out.append(data);
    out.append(GET_PAGE_2);
    out
}

pub const GET_ERROR_PAGE_0: &'static str = "<div style='color:#ff3366; font-family:monospace; text-align:center; padding:50px;'><h2>🚨 PIPELINE ERROR</h2><p>Download Failed:<br>";
pub const GET_ERROR_PAGE_1: &'static str = "</p></div>";

/// The page for a failed download, with the failure.
pub open spec fn get_error_page_spec(detail: Seq<char>) -> Seq<char> {
    GET_ERROR_PAGE_0@ + detail + GET_ERROR_PAGE_1@
}

/// The page for a failed download, with the failure.
pub fn get_error_page(detail: &str) -> (out: String)
    ensures
        out@ == get_error_page_spec(detail@),
{
    let mut out = String::from_str(GET_ERROR_PAGE_0);
    out.append(detail);
    out.append(GET_ERROR_PAGE_1);
    out
}

pub const UPLOAD_PAGE_0: &'static str = r"
                                                    <div style='display:flex; flex-direction:column; align-items:center; justify-content:center; min-height:100%; background:#050505; color:#00ff41; font-family:monospace; text-align:center;'>
                                                        <h1 style='color:#00ccff; text-shadow: 0 0 10px #00ccff55;'>⚡ Local File Upload Complete</h1>
                                                        <div style='background:#111; border:1px solid #333; padding:20px; text-align:left; max-width:800px; margin-top:20px; width: 90%; box-shadow: 0 0 15px #00ff4111;'>
                                                            <p style='color:#888;'>Target: <span style='color:#fff;'>";
pub const UPLOAD_PAGE_1: &'static str = r"</span></p>
                                                            <hr style='border:1px dashed #333; margin:15px 0;'>
                                                            <div style='background:#000; border:1px solid #00ff41; padding:20px; margin-top:10px; max-height: 400px; overflow-y: auto;'>
                                                                <div style='color:#00ff41; font-size:19px; line-height:1.6; letter-spacing:0.5px; white-space: pre-wrap;'>";
pub const UPLOAD_PAGE_2: &'static str = r"</div>
                                                            </div>
                                                        </div>
                                                    </div>
                                                    ";

/// The page for an uploaded file, with its path and contents.
pub open spec fn upload_page_spec(path: Seq<char>, data: Seq<char>) -> Seq<char> {
    UPLOAD_PAGE_0@ + path + UPLOAD_PAGE_1@ + data + UPLOAD_PAGE_2@
}

/// The page for an uploaded file, with its path and contents.
pub fn upload_page(path: &str, data: &str) -> (out: String)
    ensures
        out@ == upload_page_spec(path@, data@),
{
    let mut out = String::from_str(UPLOAD_PAGE_0);
    out.append(path);
    out.append(UPLOAD_PAGE_1);
    out.append(data);
    out.append(UPLOAD_PAGE_2);
    out
}

/// The page shown when the file selection was aborted.
pub const CANCEL_PAGE: &'static str = "<div style='color:#ffcc00; font-family:monospace; text-align:center; padding:50px;'><h2>⚠️ PIPELINE CANCELLED</h2><p>File selection was aborted.</p></div>";

pub const ECHO_PAGE_0: &'static str = r"
                                        <div style='display:flex; flex-direction:column; align-items:center; justify-content:center; min-height:100%; background:#050505; color:#00ff41; font-family:monospace; text-align:center;'>
                                            <h1 style='color:#00ccff; text-shadow: 0 0 10px #00ccff55;'>⚡ Sandbox Execution Complete</h1>
                                            <div style='background:#111; border:1px solid #333; padding:20px; text-align:left; max-width:800px; margin-top:20px; width: 90%; box-shadow: 0 0 15px #00ff4111;'>
                                                <div style='background:#000; border:1px solid #00ff41; padding:20px; max-height: 400px; overflow-y: auto;'>
                                                    <div style='display:flex; justify-content:space-between; align-items:center; border-bottom:1px dashed #333; padding-bottom:10px; margin-bottom:10px;'>
                                                        <span style='color:#888; font-size:10px;'>[PIPELINE OUTPUT TERMINAL]</span>
                                                        <button onclick='let val=this.parentElement.nextElementSibling.innerText; try{navigator.clipboard.writeText(val);}catch(e){let ta=document.createElement(`textarea`);ta.value=val;document.body.appendChild(ta);ta.select();document.execCommand(`copy`);ta.remove();} let oldBg=this.style.background; this.style.background=`#00ff41`; this.style.color=`#000`; this.innerText=`[ COPIED! ]`; setTimeout(()=>{this.style.background=oldBg; this.style.color=`#00ff41`; this.innerText=`[ COPY DATA ]`;}, 800);' style='background:#003300; color:#00ff41; border:1px solid #00ff41; cursor:pointer; padding:4px 10px; font-family:monospace; font-weight:bold; outline:none; transition:0.2s;'>[ COPY DATA ]</button>
                                                    </div>
                                                    <div style='color:#00ff41; font-size:19px; line-height:1.6; letter-spacing:0.5px; white-space: pre-wrap;'>";
pub const ECHO_PAGE_1: &'static str = r"</div>
                                                </div>
                                            </div>
                                        </div>";

/// The page showing echoed pipeline data, already escaped.
pub open spec fn echo_page_spec(escaped: Seq<char>) -> Seq<char> {
    ECHO_PAGE_0@ + escaped + ECHO_PAGE_1@
}

/// The page showing echoed pipeline data, already escaped.
pub fn echo_page(escaped: &str) -> (out: String)
    ensures
        out@ == echo_page_spec(escaped@),
{
    let mut out = String::from_str(ECHO_PAGE_0);
    out.append(escaped);
    out.append(ECHO_PAGE_1);
    out
}

pub const RHAI_PAGE_0: &'static str = r"
                                                    <div style='display:flex; flex-direction:column; align-items:center; justify-content:center; min-height:100%; background:#050505; color:#00ff41; font-family:monospace; text-align:center;'>
                                                        <h1 style='color:#ffcc00; text-shadow: 0 0 10px #ffcc0055;'>⚡ Rhai Native Execution Complete</h1>
                                                        <div style='background:#111; border:1px solid #333; padding:20px; text-align:left; max-width:800px; margin-top:20px; width: 90%; box-shadow: 0 0 15px #ffcc0011;'>
                                                            <p style='color:#888;'>Engine: <span style='color:#fff;'>Rhai Embedded Sandbox</span></p>
                                                            <p style='color:#888;'>Execution Time: <span style='color:#ffcc00;'>";
pub const RHAI_PAGE_1: &'static str = r" ms</span></p>
                                                            <hr style='border:1px dashed #333; margin:15px 0;'>
                                                            <div style='background:#000; border:1px solid #ffcc00; padding:20px; margin-top:10px; max-height: 400px; overflow-y: auto;'>
                                                                <span style='color:#888; font-size:10px;'>[INPUT SCRIPT]</span><br>
                                                                <span style='color:#fff; font-size:16px; line-height:1.6;'>";
pub const RHAI_PAGE_2: &'static str = r"</span><br><br>
                                                                <div style='display:flex; justify-content:space-between; align-items:center; border-bottom:1px dashed #333; padding-bottom:10px; margin-bottom:10px; margin-top:15px;'>
                                                                    <span style='color:#888; font-size:10px;'>[PIPELINE OUTPUT TERMINAL]</span>
                                                                    <button onclick='let val=this.parentElement.nextElementSibling.innerText; try{navigator.clipboard.writeText(val);}catch(e){let ta=document.createElement(`textarea`);ta.value=val;document.body.appendChild(ta);ta.select();document.execCommand(`copy`);ta.remove();} let oldBg=this.style.background; this.style.background=`#ffcc00`; this.style.color=`#000`; this.innerText=`[ COPIED! ]`; setTimeout(()=>{this.style.background=oldBg; this.style.color=`#ffcc00`; this.innerText=`[ COPY DATA ]`;}, 800);' style='background:#332b00; color:#ffcc00; border:1px solid #ffcc00; cursor:pointer; padding:4px 10px; font-family:monospace; font-weight:bold; outline:none; transition:0.2s;'>[ COPY DATA ]</button>
                                                                </div>
                                                                <div style='color:#ffcc00; font-size:22px; font-weight:bold; letter-spacing:1px; white-space: pre-wrap;'>";
pub const RHAI_PAGE_3: &'static str = r"</div>
                                                            </div>
                                                        </div>
                                                    </div>
                                                ";

/// The page for an evaluated script: its running time, the script and its result.
pub open spec fn rhai_page_spec(millis: u128, script: Seq<char>, data: Seq<char>) -> Seq<char> {
    RHAI_PAGE_0@ + decimal(millis as nat) + RHAI_PAGE_1@ + script + RHAI_PAGE_2@ + data + RHAI_PAGE_3@
}

/// The page for an evaluated script: its running time, the script and its result.
pub fn rhai_page(millis: u128, script: &str, data: &str) -> (out: String)
    ensures
        out@ == rhai_page_spec(millis, script@, data@),
{
    let mut out = String::from_str(RHAI_PAGE_0);
    let digits = decimal_string(millis);
    out.append(digits.as_str());
    out.append(RHAI_PAGE_1);
    out.append(script);
    out.append(RHAI_PAGE_2);
    out.append(data);
    out.append(RHAI_PAGE_3);
    out
}

pub const CHART_PAGE_0: &'static str = r"
                                                                    <html><head>
                                                                        <script src='https://cdn.jsdelivr.net/npm/chart.js'></script>
                                                                        <style>
                                                                            body { background:#050505; color:#fff; font-family:monospace; display:flex; flex-direction:column; align-items:center; justify-content:center; margin:0; padding: 20px; height: 100vh; box-sizing: border-box; }
                                                                        </style>
                                                                    </head><body>
                                                                        <h1 id='chartTitle' style='color:#00ccff; text-shadow: 0 0 10px #00ccff55; margin-bottom: 20px;'>⚡ Analyzing Data...</h1>
                                                                        <div style='background:#111; border:1px solid #333; padding:20px; width:100%; max-width:900px; height:60vh; min-height: 400px; box-shadow: 0 0 15px rgba(255,255,255,0.05); position:relative; border-radius: 8px;'>
                                                                            <canvas id='myChart'></canvas>
                                                                        </div>
                                                                        <div id='debug' style='color: #ff3366; margin-top: 10px; font-size: 12px;'></div>
                                                                        
                                                                        <script id='chart-data' type='application/json'>";
pub const CHART_PAGE_1: &'static str = r"</script>
                                                                        
                                                                        <script>
                                                                            try {
                                                                                const rawText = document.getElementById('chart-data').textContent;
                                                                                const wsData = JSON.parse(rawText);
                                                                                
                                                                                document.getElementById('chartTitle').innerText = '⚡ ' + (wsData.title || 'Analysis Complete');
                                                                                const ctx = document.getElementById('myChart');
                                                                                new Chart(ctx, {
                                                                                    type: wsData.chart_type || 'bar',
                                                                                    data: {
                                                                                        labels: wsData.labels,
                                                                                        datasets: [{
                                                                                            label: wsData.dataset_name || 'Data Set',
                                                                                            data: wsData.data,
                                                                                            backgroundColor: wsData.color_main || 'rgba(0, 255, 65, 0.5)',
                                                                                            borderColor: wsData.color_border || '#00ff41',
                                                                                            borderWidth: 2,
                                                                                            borderRadius: 5
                                                                                        }]
                                                                                    },
                                                                                    options: {
                                                                                        responsive: true,
                                                                                        maintainAspectRatio: false,
                                                                                        scales: { y: { beginAtZero: true, ticks: { color: '#aaa' } }, x: { ticks: { color: '#aaa' } } },
                                                                                        plugins: { legend: { labels: { color: '#fff' } }, title: { display: true, text: wsData.title, color: '#00ccff', font: { size: 18 } } }
                                                                                    }
                                                                                });
                                                                            } catch(e) { document.getElementById('debug').innerText = 'Chart Parse Error: ' + e; }
                                                                        </script>
                                                                    </body></html>
                                                                    ";

/// The page that draws the chart a worker described.
pub open spec fn chart_page_spec(data: Seq<char>) -> Seq<char> {
    CHART_PAGE_0@ + data + CHART_PAGE_1@
}

/// The page that draws the chart a worker described.
pub fn chart_page(data: &str) -> (out: String)
    ensures
        out@ == chart_page_spec(data@),
{
    let mut out = String::from_str(CHART_PAGE_0);
    out.append(data);
    out.append(CHART_PAGE_1);
    out
}

pub const PIPELINE_PAGE_0: &'static str = r"
                                                                    <div style='display:flex; flex-direction:column; align-items:center; justify-content:center; min-height:100%; background:#050505; color:#00ff41; font-family:monospace; text-align:center;'>
                                                                        <h1 style='color:#00ccff; text-shadow: 0 0 10px #00ccff55;'>⚡ Sandbox Execution Complete</h1>
                                                                        <div style='background:#111; border:1px solid #333; padding:20px; text-align:left; max-width:800px; margin-top:20px; width: 90%; box-shadow: 0 0 15px #00ff4111;'>
                                                                            <div style='background:#000; border:1px solid #00ff41; padding:20px; max-height: 400px; overflow-y: auto;'>
                                                                                <div style='display:flex; justify-content:space-between; align-items:center; border-bottom:1px dashed #333; padding-bottom:10px; margin-bottom:10px;'>
                                                                                    <span style='color:#888; font-size:10px;'>[PIPELINE OUTPUT TERMINAL]</span>
                                                                                    <button onclick='let val=this.parentElement.nextElementSibling.innerText; try{navigator.clipboard.writeText(val);}catch(e){let ta=document.createElement(`textarea`);ta.value=val;document.body.appendChild(ta);ta.select();document.execCommand(`copy`);ta.remove();} let oldBg=this.style.background; this.style.background=`#00ff41`; this.style.color=`#000`; this.innerText=`[ COPIED! ]`; setTimeout(()=>{this.style.background=oldBg; this.style.color=`#00ff41`; this.innerText=`[ COPY DATA ]`;}, 800);' style='background:#003300; color:#00ff41; border:1px solid #00ff41; cursor:pointer; padding:4px 10px; font-family:monospace; font-weight:bold; outline:none; transition:0.2s;'>[ COPY DATA ]</button>
                                                                                </div>
                                                                                <div style='color:#00ff41; font-size:19px; line-height:1.6; letter-spacing:0.5px; white-space: pre-wrap;'>";
pub const PIPELINE_PAGE_1: &'static str = r"</div>
                                                                            </div>
                                                                        </div>
                                                                    </div>";

/// The page showing a worker output, already escaped.
pub open spec fn pipeline_page_spec(escaped: Seq<char>) -> Seq<char> {
    PIPELINE_PAGE_0@ + escaped + PIPELINE_PAGE_1@
}

/// The page showing a worker output, already escaped.
pub fn pipeline_page(escaped: &str) -> (out: String)
    ensures
        out@ == pipeline_page_spec(escaped@),
{
    let mut out = String::from_str(PIPELINE_PAGE_0);
    out.append(escaped);
    out.append(PIPELINE_PAGE_1);
    out
}

pub const COMPILE_ERROR_PAGE_0: &'static str = "<div style='color:#ff3366; font-family:monospace; text-align:center; padding:50px;'><h2>🚨 PIPELINE ERROR</h2><p>WASM Engine Compilation Failed:<br>";
pub const COMPILE_ERROR_PAGE_1: &'static str = "</p></div>";

/// The page for a worker that failed to compile.
pub open spec fn compile_error_page_spec(detail: Seq<char>) -> Seq<char> {
    COMPILE_ERROR_PAGE_0@ + detail + COMPILE_ERROR_PAGE_1@
}

/// The page for a worker that failed to compile.
pub fn compile_error_page(detail: &str) -> (out: String)
    ensures
        out@ == compile_error_page_spec(detail@),
{
    let mut out = String::from_str(COMPILE_ERROR_PAGE_0);
    out.append(detail);
    out.append(COMPILE_ERROR_PAGE_1);
    out
}

pub const WORKER_DOWNLOAD_ERROR_PAGE_0: &'static str = "<div style='color:#ff3366; font-family:monospace; text-align:center; padding:50px;'><h2>🚨 PIPELINE ERROR</h2><p>Download Failed (Are you offline or is the link broken?):<br>";
pub const WORKER_DOWNLOAD_ERROR_PAGE_1: &'static str = "</p></div>";

/// The page for a worker that failed to download.
pub open spec fn worker_download_error_page_spec(detail: Seq<char>) -> Seq<char> {
    WORKER_DOWNLOAD_ERROR_PAGE_0@ + detail + WORKER_DOWNLOAD_ERROR_PAGE_1@
}

/// The page for a worker that failed to download.
pub fn worker_download_error_page(detail: &str) -> (out: String)
    ensures
        out@ == worker_download_error_page_spec(detail@),
{
    let mut out = String::from_str(WORKER_DOWNLOAD_ERROR_PAGE_0);
    out.append(detail);
    out.append(WORKER_DOWNLOAD_ERROR_PAGE_1);
    out
}

pub const NOT_FOUND_PAGE_0: &'static str = "<div style='color:#ff3366; font-family:monospace; text-align:center; padding:50px;'><h2>🚨 COMMAND NOT FOUND</h2><p>Terminal did not understand the input: ";
pub const NOT_FOUND_PAGE_1: &'static str = "<br>Use <b>/help</b> to see available pipeline commands.</p></div>";

/// The page for a command of a pipeline that is not known.
pub open spec fn not_found_page_spec(command: Seq<char>) -> Seq<char> {
    NOT_FOUND_PAGE_0@ + command + NOT_FOUND_PAGE_1@
}

/// The page for a command of a pipeline that is not known.
pub fn not_found_page(command: &str) -> (out: String)
    ensures
        out@ == not_found_page_spec(command@),
{
    let mut out = String::from_str(NOT_FOUND_PAGE_0);
    out.append(command);
    out.append(NOT_FOUND_PAGE_1);
    out
}

pub const UNRECOGNIZED_PAGE_0: &'static str = r"
                            <div style='color:#ff3366; font-family:monospace; text-align:center; padding:50px;'>
                                <h2>🚨 COMMAND NOT FOUND</h2>
                                <p style='color:#aaa; font-size:16px;'>IsoBrowse did not understand the input: <span style='color:#fff; background:#222; padding:2px 6px; border-radius:4px;'>";
pub const UNRECOGNIZED_PAGE_1: &'static str = r"</span></p>
                                
                                <div style='background:#111; border:1px dashed #ffcc00; padding:25px; text-align:left; max-width:650px; margin:30px auto; color:#fff; border-radius:8px; box-shadow: 0 0 20px rgba(255,204,0,0.05);'>
                                    <div style='color:#ffcc00; font-weight:bold; font-size:18px; margin-bottom:15px;'>💡 QUICK TIPS</div>
                                    <p style='color:#aaa; margin-bottom: 20px;'>Please check the <b>[ 💡 ] EXAMPLES</b> button in the terminal to see how pipelines work.</p>
                                    
                                    <div style='margin-bottom:15px;'>
                                        <span style='color:#00ff41; font-weight:bold;'>📂 Secure Local File Read:</span><br>
                                        <code style='color:#888; background:#000; padding:4px 8px; border-radius:4px; display:inline-block; margin-top:5px; border:1px solid #333;'>/read ~/Desktop/server.log | /run head 10</code>
                                    </div>
                                    
                                    <div>
                                        <span style='color:#00ccff; font-weight:bold;'>🌐 Safe Web Browsing (Zero-Trust):</span><br>
                                        <code style='color:#888; background:#000; padding:4px 8px; border-radius:4px; display:inline-block; margin-top:5px; border:1px solid #333;'>/nojs news.ycombinator.com</code>
                                    </div>
                                </div>
                            </div>";

/// The page for an input that starts no pipeline, already escaped.
pub open spec fn unrecognized_page_spec(escaped: Seq<char>) -> Seq<char> {
    UNRECOGNIZED_PAGE_0@ + escaped + UNRECOGNIZED_PAGE_1@
}

/// The page for an input that starts no pipeline, already escaped.
pub fn unrecognized_page(escaped: &str) -> (out: String)
    ensures
        out@ == unrecognized_page_spec(escaped@),
{
    let mut out = String::from_str(UNRECOGNIZED_PAGE_0);
    out.append(escaped);
    out.append(UNRECOGNIZED_PAGE_1);
    out
}

} // verus!
