//! The page that the root route serves: three buttons that call the compute
//! route with 10, 50 and 100 million values and show its answer.
use vstd::prelude::*;

verus! {

/// The HTML document of the root route.
pub const INDEX_HTML: &'static str = r#"
<!DOCTYPE html>
<html lang="en">
<head>
<meta charset="UTF-8" />
<meta name="viewport" content="width=device-width, initial-scale=1.0" /> 
<title>Rust Compute Demo</title>
<script src="https://cdn.tailwindcss.com"></script>
</head>
<body class="bg-gray-100 flex flex-col items-center justify-center min-h-screen p-4">
<h1 class="text-3xl font-bold mb-6 text-center">Rust Compute Demo</h1>

<!-- Three buttons to trigger computation with different sizes -->
<div class="flex gap-4 mb-4">
    <button class="bg-blue-500 hover:bg-blue-700 text-white font-bold py-2 px-4 rounded" onclick="compute(10000000)">Compute 10M</button>
    <button class="bg-green-500 hover:bg-green-700 text-white font-bold py-2 px-4 rounded" onclick="compute(50000000)">Compute 50M</button>
    <button class="bg-purple-500 hover:bg-purple-700 text-white font-bold py-2 px-4 rounded" onclick="compute(100000000)">Compute 100M</button>
</div>

<!-- Progress bar container -->
<div class="w-full max-w-lg">
    <div class="relative w-full h-4 bg-gray-300 rounded mb-2">
        <div id="progress" class="absolute top-0 left-0 h-4 bg-blue-500 rounded w-0"></div>
    </div>
</div>

<!-- Area to display computation results -->
<div id="result" class="text-lg font-mono whitespace-pre-wrap text-center mt-4"></div>

<script>
// JavaScript function that fetches computation results from the server
async function compute(size) {
    // Clear previous result text
    document.getElementById('result').textContent = '';
    
    // Get reference to the progress bar and reset it
    const progressBar = document.getElementById('progress');
    progressBar.style.width = '0%';
    progressBar.classList.remove('bg-green-500');
    progressBar.classList.add('bg-blue-500');

    // Show initial status text
    document.getElementById('result').textContent = 'Computing ' + size.toLocaleString() + ' numbers...';

    // Simulate progress updates while the server is computing
    let width = 0;
    const interval = setInterval(() => {
        // Increase the width randomly up to 90% to simulate progress
        width = Math.min(width + Math.random()*10, 90);
        progressBar.style.width = width + '%';
    }, 50);

    // Send GET request to /compute with the selected size as a query parameter
    const res = await fetch('/compute?size=' + size);
    const text = await res.text(); // Get the result as text

    // Stop progress simulation and finalize the progress bar
    clearInterval(interval);
    progressBar.style.width = '100%';
    progressBar.classList.remove('bg-blue-500');
    progressBar.classList.add('bg-green-500');

    // Display the final computation result in the result div
    document.getElementById('result').textContent = text;
}
</script>
</body>
</html>
"#;

/// The page of the root route, verbatim.
pub fn index_page() -> (r: &'static str)
    ensures
        r@ == INDEX_HTML@,
{
    INDEX_HTML
}

} // verus!
